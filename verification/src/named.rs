//! The CSS named colours (the CSS Color Module keywords, `aliceblue` to
//! `yellowgreen`), looked up by their lower-case name.

use vstd::prelude::*;

use crate::hex::Rgb;
use crate::text::str_equals;

verus! {

/// The colour that the lower-case keyword `name` denotes, if it is one.
pub open spec fn named_color(name: Seq<char>) -> Option<Rgb> {
    if name == "aliceblue"@ {
        Some(Rgb { r: 240, g: 248, b: 255 })
    } else if name == "antiquewhite"@ {
        Some(Rgb { r: 250, g: 235, b: 215 })
    } else if name == "aqua"@ {
        Some(Rgb { r: 0, g: 255, b: 255 })
    } else if name == "aquamarine"@ {
        Some(Rgb { r: 127, g: 255, b: 212 })
    } else if name == "azure"@ {
        Some(Rgb { r: 240, g: 255, b: 255 })
    } else if name == "beige"@ {
        Some(Rgb { r: 245, g: 245, b: 220 })
    } else if name == "bisque"@ {
        Some(Rgb { r: 255, g: 228, b: 196 })
    } else if name == "black"@ {
        Some(Rgb { r: 0, g: 0, b: 0 })
    } else if name == "blanchedalmond"@ {
        Some(Rgb { r: 255, g: 235, b: 205 })
    } else if name == "blue"@ {
        Some(Rgb { r: 0, g: 0, b: 255 })
    } else if name == "blueviolet"@ {
        Some(Rgb { r: 138, g: 43, b: 226 })
    } else if name == "brown"@ {
        Some(Rgb { r: 165, g: 42, b: 42 })
    } else if name == "burlywood"@ {
        Some(Rgb { r: 222, g: 184, b: 135 })
    } else if name == "cadetblue"@ {
        Some(Rgb { r: 95, g: 158, b: 160 })
    } else if name == "chartreuse"@ {
        Some(Rgb { r: 127, g: 255, b: 0 })
    } else if name == "chocolate"@ {
        Some(Rgb { r: 210, g: 105, b: 30 })
    } else if name == "coral"@ {
        Some(Rgb { r: 255, g: 127, b: 80 })
    } else if name == "cornflowerblue"@ {
        Some(Rgb { r: 100, g: 149, b: 237 })
    } else if name == "cornsilk"@ {
        Some(Rgb { r: 255, g: 248, b: 220 })
    } else if name == "crimson"@ {
        Some(Rgb { r: 220, g: 20, b: 60 })
    } else if name == "cyan"@ {
        Some(Rgb { r: 0, g: 255, b: 255 })
    } else if name == "darkblue"@ {
        Some(Rgb { r: 0, g: 0, b: 139 })
    } else if name == "darkcyan"@ {
        Some(Rgb { r: 0, g: 139, b: 139 })
    } else if name == "darkgoldenrod"@ {
        Some(Rgb { r: 184, g: 134, b: 11 })
    } else if name == "darkgray"@ {
        Some(Rgb { r: 169, g: 169, b: 169 })
    } else if name == "darkgreen"@ {
        Some(Rgb { r: 0, g: 100, b: 0 })
    } else if name == "darkgrey"@ {
        Some(Rgb { r: 169, g: 169, b: 169 })
    } else if name == "darkkhaki"@ {
        Some(Rgb { r: 189, g: 183, b: 107 })
    } else if name == "darkmagenta"@ {
        Some(Rgb { r: 139, g: 0, b: 139 })
    } else if name == "darkolivegreen"@ {
        Some(Rgb { r: 85, g: 107, b: 47 })
    } else if name == "darkorange"@ {
        Some(Rgb { r: 255, g: 140, b: 0 })
    } else if name == "darkorchid"@ {
        Some(Rgb { r: 153, g: 50, b: 204 })
    } else if name == "darkred"@ {
        Some(Rgb { r: 139, g: 0, b: 0 })
    } else if name == "darksalmon"@ {
        Some(Rgb { r: 233, g: 150, b: 122 })
    } else if name == "darkseagreen"@ {
        Some(Rgb { r: 143, g: 188, b: 143 })
    } else if name == "darkslateblue"@ {
        Some(Rgb { r: 72, g: 61, b: 139 })
    } else if name == "darkslategray"@ {
        Some(Rgb { r: 47, g: 79, b: 79 })
    } else if name == "darkslategrey"@ {
        Some(Rgb { r: 47, g: 79, b: 79 })
    } else if name == "darkturquoise"@ {
        Some(Rgb { r: 0, g: 206, b: 209 })
    } else if name == "darkviolet"@ {
        Some(Rgb { r: 148, g: 0, b: 211 })
    } else if name == "deeppink"@ {
        Some(Rgb { r: 255, g: 20, b: 147 })
    } else if name == "deepskyblue"@ {
        Some(Rgb { r: 0, g: 191, b: 255 })
    } else if name == "dimgray"@ {
        Some(Rgb { r: 105, g: 105, b: 105 })
    } else if name == "dimgrey"@ {
        Some(Rgb { r: 105, g: 105, b: 105 })
    } else if name == "dodgerblue"@ {
        Some(Rgb { r: 30, g: 144, b: 255 })
    } else if name == "firebrick"@ {
        Some(Rgb { r: 178, g: 34, b: 34 })
    } else if name == "floralwhite"@ {
        Some(Rgb { r: 255, g: 250, b: 240 })
    } else if name == "forestgreen"@ {
        Some(Rgb { r: 34, g: 139, b: 34 })
    } else if name == "fuchsia"@ {
        Some(Rgb { r: 255, g: 0, b: 255 })
    } else if name == "gainsboro"@ {
        Some(Rgb { r: 220, g: 220, b: 220 })
    } else if name == "ghostwhite"@ {
        Some(Rgb { r: 248, g: 248, b: 255 })
    } else if name == "gold"@ {
        Some(Rgb { r: 255, g: 215, b: 0 })
    } else if name == "goldenrod"@ {
        Some(Rgb { r: 218, g: 165, b: 32 })
    } else if name == "gray"@ {
        Some(Rgb { r: 128, g: 128, b: 128 })
    } else if name == "green"@ {
        Some(Rgb { r: 0, g: 128, b: 0 })
    } else if name == "greenyellow"@ {
        Some(Rgb { r: 173, g: 255, b: 47 })
    } else if name == "grey"@ {
        Some(Rgb { r: 128, g: 128, b: 128 })
    } else if name == "honeydew"@ {
        Some(Rgb { r: 240, g: 255, b: 240 })
    } else if name == "hotpink"@ {
        Some(Rgb { r: 255, g: 105, b: 180 })
    } else if name == "indianred"@ {
        Some(Rgb { r: 205, g: 92, b: 92 })
    } else if name == "indigo"@ {
        Some(Rgb { r: 75, g: 0, b: 130 })
    } else if name == "ivory"@ {
        Some(Rgb { r: 255, g: 255, b: 240 })
    } else if name == "khaki"@ {
        Some(Rgb { r: 240, g: 230, b: 140 })
    } else if name == "lavender"@ {
        Some(Rgb { r: 230, g: 230, b: 250 })
    } else if name == "lavenderblush"@ {
        Some(Rgb { r: 255, g: 240, b: 245 })
    } else if name == "lawngreen"@ {
        Some(Rgb { r: 124, g: 252, b: 0 })
    } else if name == "lemonchiffon"@ {
        Some(Rgb { r: 255, g: 250, b: 205 })
    } else if name == "lightblue"@ {
        Some(Rgb { r: 173, g: 216, b: 230 })
    } else if name == "lightcoral"@ {
        Some(Rgb { r: 240, g: 128, b: 128 })
    } else if name == "lightcyan"@ {
        Some(Rgb { r: 224, g: 255, b: 255 })
    } else if name == "lightgoldenrodyellow"@ {
        Some(Rgb { r: 250, g: 250, b: 210 })
    } else if name == "lightgray"@ {
        Some(Rgb { r: 211, g: 211, b: 211 })
    } else if name == "lightgreen"@ {
        Some(Rgb { r: 144, g: 238, b: 144 })
    } else if name == "lightgrey"@ {
        Some(Rgb { r: 211, g: 211, b: 211 })
    } else if name == "lightpink"@ {
        Some(Rgb { r: 255, g: 182, b: 193 })
    } else if name == "lightsalmon"@ {
        Some(Rgb { r: 255, g: 160, b: 122 })
    } else if name == "lightseagreen"@ {
        Some(Rgb { r: 32, g: 178, b: 170 })
    } else if name == "lightskyblue"@ {
        Some(Rgb { r: 135, g: 206, b: 250 })
    } else if name == "lightslategray"@ {
        Some(Rgb { r: 119, g: 136, b: 153 })
    } else if name == "lightslategrey"@ {
        Some(Rgb { r: 119, g: 136, b: 153 })
    } else if name == "lightsteelblue"@ {
        Some(Rgb { r: 176, g: 196, b: 222 })
    } else if name == "lightyellow"@ {
        Some(Rgb { r: 255, g: 255, b: 224 })
    } else if name == "lime"@ {
        Some(Rgb { r: 0, g: 255, b: 0 })
    } else if name == "limegreen"@ {
        Some(Rgb { r: 50, g: 205, b: 50 })
    } else if name == "linen"@ {
        Some(Rgb { r: 250, g: 240, b: 230 })
    } else if name == "magenta"@ {
        Some(Rgb { r: 255, g: 0, b: 255 })
    } else if name == "maroon"@ {
        Some(Rgb { r: 128, g: 0, b: 0 })
    } else if name == "mediumaquamarine"@ {
        Some(Rgb { r: 102, g: 205, b: 170 })
    } else if name == "mediumblue"@ {
        Some(Rgb { r: 0, g: 0, b: 205 })
    } else if name == "mediumorchid"@ {
        Some(Rgb { r: 186, g: 85, b: 211 })
    } else if name == "mediumpurple"@ {
        Some(Rgb { r: 147, g: 112, b: 219 })
    } else if name == "mediumseagreen"@ {
        Some(Rgb { r: 60, g: 179, b: 113 })
    } else if name == "mediumslateblue"@ {
        Some(Rgb { r: 123, g: 104, b: 238 })
    } else if name == "mediumspringgreen"@ {
        Some(Rgb { r: 0, g: 250, b: 154 })
    } else if name == "mediumturquoise"@ {
        Some(Rgb { r: 72, g: 209, b: 204 })
    } else if name == "mediumvioletred"@ {
        Some(Rgb { r: 199, g: 21, b: 133 })
    } else if name == "midnightblue"@ {
        Some(Rgb { r: 25, g: 25, b: 112 })
    } else if name == "mintcream"@ {
        Some(Rgb { r: 245, g: 255, b: 250 })
    } else if name == "mistyrose"@ {
        Some(Rgb { r: 255, g: 228, b: 225 })
    } else if name == "moccasin"@ {
        Some(Rgb { r: 255, g: 228, b: 181 })
    } else if name == "navajowhite"@ {
        Some(Rgb { r: 255, g: 222, b: 173 })
    } else if name == "navy"@ {
        Some(Rgb { r: 0, g: 0, b: 128 })
    } else if name == "oldlace"@ {
        Some(Rgb { r: 253, g: 245, b: 230 })
    } else if name == "olive"@ {
        Some(Rgb { r: 128, g: 128, b: 0 })
    } else if name == "olivedrab"@ {
        Some(Rgb { r: 107, g: 142, b: 35 })
    } else if name == "orange"@ {
        Some(Rgb { r: 255, g: 165, b: 0 })
    } else if name == "orangered"@ {
        Some(Rgb { r: 255, g: 69, b: 0 })
    } else if name == "orchid"@ {
        Some(Rgb { r: 218, g: 112, b: 214 })
    } else if name == "palegoldenrod"@ {
        Some(Rgb { r: 238, g: 232, b: 170 })
    } else if name == "palegreen"@ {
        Some(Rgb { r: 152, g: 251, b: 152 })
    } else if name == "paleturquoise"@ {
        Some(Rgb { r: 175, g: 238, b: 238 })
    } else if name == "palevioletred"@ {
        Some(Rgb { r: 219, g: 112, b: 147 })
    } else if name == "papayawhip"@ {
        Some(Rgb { r: 255, g: 239, b: 213 })
    } else if name == "peachpuff"@ {
        Some(Rgb { r: 255, g: 218, b: 185 })
    } else if name == "peru"@ {
        Some(Rgb { r: 205, g: 133, b: 63 })
    } else if name == "pink"@ {
        Some(Rgb { r: 255, g: 192, b: 203 })
    } else if name == "plum"@ {
        Some(Rgb { r: 221, g: 160, b: 221 })
    } else if name == "powderblue"@ {
        Some(Rgb { r: 176, g: 224, b: 230 })
    } else if name == "purple"@ {
        Some(Rgb { r: 128, g: 0, b: 128 })
    } else if name == "rebeccapurple"@ {
        Some(Rgb { r: 102, g: 51, b: 153 })
    } else if name == "red"@ {
        Some(Rgb { r: 255, g: 0, b: 0 })
    } else if name == "rosybrown"@ {
        Some(Rgb { r: 188, g: 143, b: 143 })
    } else if name == "royalblue"@ {
        Some(Rgb { r: 65, g: 105, b: 225 })
    } else if name == "saddlebrown"@ {
        Some(Rgb { r: 139, g: 69, b: 19 })
    } else if name == "salmon"@ {
        Some(Rgb { r: 250, g: 128, b: 114 })
    } else if name == "sandybrown"@ {
        Some(Rgb { r: 244, g: 164, b: 96 })
    } else if name == "seagreen"@ {
        Some(Rgb { r: 46, g: 139, b: 87 })
    } else if name == "seashell"@ {
        Some(Rgb { r: 255, g: 245, b: 238 })
    } else if name == "sienna"@ {
        Some(Rgb { r: 160, g: 82, b: 45 })
    } else if name == "silver"@ {
        Some(Rgb { r: 192, g: 192, b: 192 })
    } else if name == "skyblue"@ {
        Some(Rgb { r: 135, g: 206, b: 235 })
    } else if name == "slateblue"@ {
        Some(Rgb { r: 106, g: 90, b: 205 })
    } else if name == "slategray"@ {
        Some(Rgb { r: 112, g: 128, b: 144 })
    } else if name == "slategrey"@ {
        Some(Rgb { r: 112, g: 128, b: 144 })
    } else if name == "snow"@ {
        Some(Rgb { r: 255, g: 250, b: 250 })
    } else if name == "springgreen"@ {
        Some(Rgb { r: 0, g: 255, b: 127 })
    } else if name == "steelblue"@ {
        Some(Rgb { r: 70, g: 130, b: 180 })
    } else if name == "tan"@ {
        Some(Rgb { r: 210, g: 180, b: 140 })
    } else if name == "teal"@ {
        Some(Rgb { r: 0, g: 128, b: 128 })
    } else if name == "thistle"@ {
        Some(Rgb { r: 216, g: 191, b: 216 })
    } else if name == "tomato"@ {
        Some(Rgb { r: 255, g: 99, b: 71 })
    } else if name == "turquoise"@ {
        Some(Rgb { r: 64, g: 224, b: 208 })
    } else if name == "violet"@ {
        Some(Rgb { r: 238, g: 130, b: 238 })
    } else if name == "wheat"@ {
        Some(Rgb { r: 245, g: 222, b: 179 })
    } else if name == "white"@ {
        Some(Rgb { r: 255, g: 255, b: 255 })
    } else if name == "whitesmoke"@ {
        Some(Rgb { r: 245, g: 245, b: 245 })
    } else if name == "yellow"@ {
        Some(Rgb { r: 255, g: 255, b: 0 })
    } else if name == "yellowgreen"@ {
        Some(Rgb { r: 154, g: 205, b: 50 })
    } else {
        None
    }
}

/// Looks up the colour keyword `name` (already in lower case).
#[verifier::rlimit(50)]
pub fn named_color_lookup(name: &str) -> (res: Option<Rgb>)
    ensures
        res == named_color(name@),
{
    if str_equals(name, "aliceblue") {
        Some(Rgb { r: 240, g: 248, b: 255 })
    } else if str_equals(name, "antiquewhite") {
        Some(Rgb { r: 250, g: 235, b: 215 })
    } else if str_equals(name, "aqua") {
        Some(Rgb { r: 0, g: 255, b: 255 })
    } else if str_equals(name, "aquamarine") {
        Some(Rgb { r: 127, g: 255, b: 212 })
    } else if str_equals(name, "azure") {
        Some(Rgb { r: 240, g: 255, b: 255 })
    } else if str_equals(name, "beige") {
        Some(Rgb { r: 245, g: 245, b: 220 })
    } else if str_equals(name, "bisque") {
        Some(Rgb { r: 255, g: 228, b: 196 })
    } else if str_equals(name, "black") {
        Some(Rgb { r: 0, g: 0, b: 0 })
    } else if str_equals(name, "blanchedalmond") {
        Some(Rgb { r: 255, g: 235, b: 205 })
    } else if str_equals(name, "blue") {
        Some(Rgb { r: 0, g: 0, b: 255 })
    } else if str_equals(name, "blueviolet") {
        Some(Rgb { r: 138, g: 43, b: 226 })
    } else if str_equals(name, "brown") {
        Some(Rgb { r: 165, g: 42, b: 42 })
    } else if str_equals(name, "burlywood") {
        Some(Rgb { r: 222, g: 184, b: 135 })
    } else if str_equals(name, "cadetblue") {
        Some(Rgb { r: 95, g: 158, b: 160 })
    } else if str_equals(name, "chartreuse") {
        Some(Rgb { r: 127, g: 255, b: 0 })
    } else if str_equals(name, "chocolate") {
        Some(Rgb { r: 210, g: 105, b: 30 })
    } else if str_equals(name, "coral") {
        Some(Rgb { r: 255, g: 127, b: 80 })
    } else if str_equals(name, "cornflowerblue") {
        Some(Rgb { r: 100, g: 149, b: 237 })
    } else if str_equals(name, "cornsilk") {
        Some(Rgb { r: 255, g: 248, b: 220 })
    } else if str_equals(name, "crimson") {
        Some(Rgb { r: 220, g: 20, b: 60 })
    } else if str_equals(name, "cyan") {
        Some(Rgb { r: 0, g: 255, b: 255 })
    } else if str_equals(name, "darkblue") {
        Some(Rgb { r: 0, g: 0, b: 139 })
    } else if str_equals(name, "darkcyan") {
        Some(Rgb { r: 0, g: 139, b: 139 })
    } else if str_equals(name, "darkgoldenrod") {
        Some(Rgb { r: 184, g: 134, b: 11 })
    } else if str_equals(name, "darkgray") {
        Some(Rgb { r: 169, g: 169, b: 169 })
    } else if str_equals(name, "darkgreen") {
        Some(Rgb { r: 0, g: 100, b: 0 })
    } else if str_equals(name, "darkgrey") {
        Some(Rgb { r: 169, g: 169, b: 169 })
    } else if str_equals(name, "darkkhaki") {
        Some(Rgb { r: 189, g: 183, b: 107 })
    } else if str_equals(name, "darkmagenta") {
        Some(Rgb { r: 139, g: 0, b: 139 })
    } else if str_equals(name, "darkolivegreen") {
        Some(Rgb { r: 85, g: 107, b: 47 })
    } else if str_equals(name, "darkorange") {
        Some(Rgb { r: 255, g: 140, b: 0 })
    } else if str_equals(name, "darkorchid") {
        Some(Rgb { r: 153, g: 50, b: 204 })
    } else if str_equals(name, "darkred") {
        Some(Rgb { r: 139, g: 0, b: 0 })
    } else if str_equals(name, "darksalmon") {
        Some(Rgb { r: 233, g: 150, b: 122 })
    } else if str_equals(name, "darkseagreen") {
        Some(Rgb { r: 143, g: 188, b: 143 })
    } else if str_equals(name, "darkslateblue") {
        Some(Rgb { r: 72, g: 61, b: 139 })
    } else if str_equals(name, "darkslategray") {
        Some(Rgb { r: 47, g: 79, b: 79 })
    } else if str_equals(name, "darkslategrey") {
        Some(Rgb { r: 47, g: 79, b: 79 })
    } else if str_equals(name, "darkturquoise") {
        Some(Rgb { r: 0, g: 206, b: 209 })
    } else if str_equals(name, "darkviolet") {
        Some(Rgb { r: 148, g: 0, b: 211 })
    } else if str_equals(name, "deeppink") {
        Some(Rgb { r: 255, g: 20, b: 147 })
    } else if str_equals(name, "deepskyblue") {
        Some(Rgb { r: 0, g: 191, b: 255 })
    } else if str_equals(name, "dimgray") {
        Some(Rgb { r: 105, g: 105, b: 105 })
    } else if str_equals(name, "dimgrey") {
        Some(Rgb { r: 105, g: 105, b: 105 })
    } else if str_equals(name, "dodgerblue") {
        Some(Rgb { r: 30, g: 144, b: 255 })
    } else if str_equals(name, "firebrick") {
        Some(Rgb { r: 178, g: 34, b: 34 })
    } else if str_equals(name, "floralwhite") {
        Some(Rgb { r: 255, g: 250, b: 240 })
    } else if str_equals(name, "forestgreen") {
        Some(Rgb { r: 34, g: 139, b: 34 })
    } else if str_equals(name, "fuchsia") {
        Some(Rgb { r: 255, g: 0, b: 255 })
    } else if str_equals(name, "gainsboro") {
        Some(Rgb { r: 220, g: 220, b: 220 })
    } else if str_equals(name, "ghostwhite") {
        Some(Rgb { r: 248, g: 248, b: 255 })
    } else if str_equals(name, "gold") {
        Some(Rgb { r: 255, g: 215, b: 0 })
    } else if str_equals(name, "goldenrod") {
        Some(Rgb { r: 218, g: 165, b: 32 })
    } else if str_equals(name, "gray") {
        Some(Rgb { r: 128, g: 128, b: 128 })
    } else if str_equals(name, "green") {
        Some(Rgb { r: 0, g: 128, b: 0 })
    } else if str_equals(name, "greenyellow") {
        Some(Rgb { r: 173, g: 255, b: 47 })
    } else if str_equals(name, "grey") {
        Some(Rgb { r: 128, g: 128, b: 128 })
    } else if str_equals(name, "honeydew") {
        Some(Rgb { r: 240, g: 255, b: 240 })
    } else if str_equals(name, "hotpink") {
        Some(Rgb { r: 255, g: 105, b: 180 })
    } else if str_equals(name, "indianred") {
        Some(Rgb { r: 205, g: 92, b: 92 })
    } else if str_equals(name, "indigo") {
        Some(Rgb { r: 75, g: 0, b: 130 })
    } else if str_equals(name, "ivory") {
        Some(Rgb { r: 255, g: 255, b: 240 })
    } else if str_equals(name, "khaki") {
        Some(Rgb { r: 240, g: 230, b: 140 })
    } else if str_equals(name, "lavender") {
        Some(Rgb { r: 230, g: 230, b: 250 })
    } else if str_equals(name, "lavenderblush") {
        Some(Rgb { r: 255, g: 240, b: 245 })
    } else if str_equals(name, "lawngreen") {
        Some(Rgb { r: 124, g: 252, b: 0 })
    } else if str_equals(name, "lemonchiffon") {
        Some(Rgb { r: 255, g: 250, b: 205 })
    } else if str_equals(name, "lightblue") {
        Some(Rgb { r: 173, g: 216, b: 230 })
    } else if str_equals(name, "lightcoral") {
        Some(Rgb { r: 240, g: 128, b: 128 })
    } else if str_equals(name, "lightcyan") {
        Some(Rgb { r: 224, g: 255, b: 255 })
    } else if str_equals(name, "lightgoldenrodyellow") {
        Some(Rgb { r: 250, g: 250, b: 210 })
    } else if str_equals(name, "lightgray") {
        Some(Rgb { r: 211, g: 211, b: 211 })
    } else if str_equals(name, "lightgreen") {
        Some(Rgb { r: 144, g: 238, b: 144 })
    } else if str_equals(name, "lightgrey") {
        Some(Rgb { r: 211, g: 211, b: 211 })
    } else if str_equals(name, "lightpink") {
        Some(Rgb { r: 255, g: 182, b: 193 })
    } else if str_equals(name, "lightsalmon") {
        Some(Rgb { r: 255, g: 160, b: 122 })
    } else if str_equals(name, "lightseagreen") {
        Some(Rgb { r: 32, g: 178, b: 170 })
    } else if str_equals(name, "lightskyblue") {
        Some(Rgb { r: 135, g: 206, b: 250 })
    } else if str_equals(name, "lightslategray") {
        Some(Rgb { r: 119, g: 136, b: 153 })
    } else if str_equals(name, "lightslategrey") {
        Some(Rgb { r: 119, g: 136, b: 153 })
    } else if str_equals(name, "lightsteelblue") {
        Some(Rgb { r: 176, g: 196, b: 222 })
    } else if str_equals(name, "lightyellow") {
        Some(Rgb { r: 255, g: 255, b: 224 })
    } else if str_equals(name, "lime") {
        Some(Rgb { r: 0, g: 255, b: 0 })
    } else if str_equals(name, "limegreen") {
        Some(Rgb { r: 50, g: 205, b: 50 })
    } else if str_equals(name, "linen") {
        Some(Rgb { r: 250, g: 240, b: 230 })
    } else if str_equals(name, "magenta") {
        Some(Rgb { r: 255, g: 0, b: 255 })
    } else if str_equals(name, "maroon") {
        Some(Rgb { r: 128, g: 0, b: 0 })
    } else if str_equals(name, "mediumaquamarine") {
        Some(Rgb { r: 102, g: 205, b: 170 })
    } else if str_equals(name, "mediumblue") {
        Some(Rgb { r: 0, g: 0, b: 205 })
    } else if str_equals(name, "mediumorchid") {
        Some(Rgb { r: 186, g: 85, b: 211 })
    } else if str_equals(name, "mediumpurple") {
        Some(Rgb { r: 147, g: 112, b: 219 })
    } else if str_equals(name, "mediumseagreen") {
        Some(Rgb { r: 60, g: 179, b: 113 })
    } else if str_equals(name, "mediumslateblue") {
        Some(Rgb { r: 123, g: 104, b: 238 })
    } else if str_equals(name, "mediumspringgreen") {
        Some(Rgb { r: 0, g: 250, b: 154 })
    } else if str_equals(name, "mediumturquoise") {
        Some(Rgb { r: 72, g: 209, b: 204 })
    } else if str_equals(name, "mediumvioletred") {
        Some(Rgb { r: 199, g: 21, b: 133 })
    } else if str_equals(name, "midnightblue") {
        Some(Rgb { r: 25, g: 25, b: 112 })
    } else if str_equals(name, "mintcream") {
        Some(Rgb { r: 245, g: 255, b: 250 })
    } else if str_equals(name, "mistyrose") {
        Some(Rgb { r: 255, g: 228, b: 225 })
    } else if str_equals(name, "moccasin") {
        Some(Rgb { r: 255, g: 228, b: 181 })
    } else if str_equals(name, "navajowhite") {
        Some(Rgb { r: 255, g: 222, b: 173 })
    } else if str_equals(name, "navy") {
        Some(Rgb { r: 0, g: 0, b: 128 })
    } else if str_equals(name, "oldlace") {
        Some(Rgb { r: 253, g: 245, b: 230 })
    } else if str_equals(name, "olive") {
        Some(Rgb { r: 128, g: 128, b: 0 })
    } else if str_equals(name, "olivedrab") {
        Some(Rgb { r: 107, g: 142, b: 35 })
    } else if str_equals(name, "orange") {
        Some(Rgb { r: 255, g: 165, b: 0 })
    } else if str_equals(name, "orangered") {
        Some(Rgb { r: 255, g: 69, b: 0 })
    } else if str_equals(name, "orchid") {
        Some(Rgb { r: 218, g: 112, b: 214 })
    } else if str_equals(name, "palegoldenrod") {
        Some(Rgb { r: 238, g: 232, b: 170 })
    } else if str_equals(name, "palegreen") {
        Some(Rgb { r: 152, g: 251, b: 152 })
    } else if str_equals(name, "paleturquoise") {
        Some(Rgb { r: 175, g: 238, b: 238 })
    } else if str_equals(name, "palevioletred") {
        Some(Rgb { r: 219, g: 112, b: 147 })
    } else if str_equals(name, "papayawhip") {
        Some(Rgb { r: 255, g: 239, b: 213 })
    } else if str_equals(name, "peachpuff") {
        Some(Rgb { r: 255, g: 218, b: 185 })
    } else if str_equals(name, "peru") {
        Some(Rgb { r: 205, g: 133, b: 63 })
    } else if str_equals(name, "pink") {
        Some(Rgb { r: 255, g: 192, b: 203 })
    } else if str_equals(name, "plum") {
        Some(Rgb { r: 221, g: 160, b: 221 })
    } else if str_equals(name, "powderblue") {
        Some(Rgb { r: 176, g: 224, b: 230 })
    } else if str_equals(name, "purple") {
        Some(Rgb { r: 128, g: 0, b: 128 })
    } else if str_equals(name, "rebeccapurple") {
        Some(Rgb { r: 102, g: 51, b: 153 })
    } else if str_equals(name, "red") {
        Some(Rgb { r: 255, g: 0, b: 0 })
    } else if str_equals(name, "rosybrown") {
        Some(Rgb { r: 188, g: 143, b: 143 })
    } else if str_equals(name, "royalblue") {
        Some(Rgb { r: 65, g: 105, b: 225 })
    } else if str_equals(name, "saddlebrown") {
        Some(Rgb { r: 139, g: 69, b: 19 })
    } else if str_equals(name, "salmon") {
        Some(Rgb { r: 250, g: 128, b: 114 })
    } else if str_equals(name, "sandybrown") {
        Some(Rgb { r: 244, g: 164, b: 96 })
    } else if str_equals(name, "seagreen") {
        Some(Rgb { r: 46, g: 139, b: 87 })
    } else if str_equals(name, "seashell") {
        Some(Rgb { r: 255, g: 245, b: 238 })
    } else if str_equals(name, "sienna") {
        Some(Rgb { r: 160, g: 82, b: 45 })
    } else if str_equals(name, "silver") {
        Some(Rgb { r: 192, g: 192, b: 192 })
    } else if str_equals(name, "skyblue") {
        Some(Rgb { r: 135, g: 206, b: 235 })
    } else if str_equals(name, "slateblue") {
        Some(Rgb { r: 106, g: 90, b: 205 })
    } else if str_equals(name, "slategray") {
        Some(Rgb { r: 112, g: 128, b: 144 })
    } else if str_equals(name, "slategrey") {
        Some(Rgb { r: 112, g: 128, b: 144 })
    } else if str_equals(name, "snow") {
        Some(Rgb { r: 255, g: 250, b: 250 })
    } else if str_equals(name, "springgreen") {
        Some(Rgb { r: 0, g: 255, b: 127 })
    } else if str_equals(name, "steelblue") {
        Some(Rgb { r: 70, g: 130, b: 180 })
    } else if str_equals(name, "tan") {
        Some(Rgb { r: 210, g: 180, b: 140 })
    } else if str_equals(name, "teal") {
        Some(Rgb { r: 0, g: 128, b: 128 })
    } else if str_equals(name, "thistle") {
        Some(Rgb { r: 216, g: 191, b: 216 })
    } else if str_equals(name, "tomato") {
        Some(Rgb { r: 255, g: 99, b: 71 })
    } else if str_equals(name, "turquoise") {
        Some(Rgb { r: 64, g: 224, b: 208 })
    } else if str_equals(name, "violet") {
        Some(Rgb { r: 238, g: 130, b: 238 })
    } else if str_equals(name, "wheat") {
        Some(Rgb { r: 245, g: 222, b: 179 })
    } else if str_equals(name, "white") {
        Some(Rgb { r: 255, g: 255, b: 255 })
    } else if str_equals(name, "whitesmoke") {
        Some(Rgb { r: 245, g: 245, b: 245 })
    } else if str_equals(name, "yellow") {
        Some(Rgb { r: 255, g: 255, b: 0 })
    } else if str_equals(name, "yellowgreen") {
        Some(Rgb { r: 154, g: 205, b: 50 })
    } else {
        None
    }
}

} // verus!
