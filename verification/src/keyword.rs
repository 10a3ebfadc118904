//! The closed mapping from CSS color keywords to their canonical colors.

use vstd::prelude::*;

verus! {

use crate::color::Color;

/// The keywords from `aliceblue` through `dodgerblue`.
pub open spec fn spec_keyword_a_to_d(s: Seq<char>) -> Option<Color> {
    if s == "aliceblue"@ {
        Some(Color { red: 240, green: 248, blue: 255, alpha: 255 })
    } else if s == "antiquewhite"@ {
        Some(Color { red: 250, green: 235, blue: 215, alpha: 255 })
    } else if s == "aqua"@ {
        Some(Color { red: 0, green: 255, blue: 255, alpha: 255 })
    } else if s == "aquamarine"@ {
        Some(Color { red: 127, green: 255, blue: 212, alpha: 255 })
    } else if s == "azure"@ {
        Some(Color { red: 240, green: 255, blue: 255, alpha: 255 })
    } else if s == "beige"@ {
        Some(Color { red: 245, green: 245, blue: 220, alpha: 255 })
    } else if s == "bisque"@ {
        Some(Color { red: 255, green: 228, blue: 196, alpha: 255 })
    } else if s == "black"@ {
        Some(Color { red: 0, green: 0, blue: 0, alpha: 255 })
    } else if s == "blanchedalmond"@ {
        Some(Color { red: 255, green: 235, blue: 205, alpha: 255 })
    } else if s == "blue"@ {
        Some(Color { red: 0, green: 0, blue: 255, alpha: 255 })
    } else if s == "blueviolet"@ {
        Some(Color { red: 138, green: 43, blue: 226, alpha: 255 })
    } else if s == "brown"@ {
        Some(Color { red: 165, green: 42, blue: 42, alpha: 255 })
    } else if s == "burlywood"@ {
        Some(Color { red: 222, green: 184, blue: 135, alpha: 255 })
    } else if s == "cadetblue"@ {
        Some(Color { red: 95, green: 158, blue: 160, alpha: 255 })
    } else if s == "chartreuse"@ {
        Some(Color { red: 127, green: 255, blue: 0, alpha: 255 })
    } else if s == "chocolate"@ {
        Some(Color { red: 210, green: 105, blue: 30, alpha: 255 })
    } else if s == "coral"@ {
        Some(Color { red: 255, green: 127, blue: 80, alpha: 255 })
    } else if s == "cornflowerblue"@ {
        Some(Color { red: 100, green: 149, blue: 237, alpha: 255 })
    } else if s == "cornsilk"@ {
        Some(Color { red: 255, green: 248, blue: 220, alpha: 255 })
    } else if s == "crimson"@ {
        Some(Color { red: 220, green: 20, blue: 60, alpha: 255 })
    } else if s == "cyan"@ {
        Some(Color { red: 0, green: 255, blue: 255, alpha: 255 })
    } else if s == "darkblue"@ {
        Some(Color { red: 0, green: 0, blue: 139, alpha: 255 })
    } else if s == "darkcyan"@ {
        Some(Color { red: 0, green: 139, blue: 139, alpha: 255 })
    } else if s == "darkgoldenrod"@ {
        Some(Color { red: 184, green: 134, blue: 11, alpha: 255 })
    } else if s == "darkgray"@ {
        Some(Color { red: 169, green: 169, blue: 169, alpha: 255 })
    } else if s == "darkgreen"@ {
        Some(Color { red: 0, green: 100, blue: 0, alpha: 255 })
    } else if s == "darkgrey"@ {
        Some(Color { red: 169, green: 169, blue: 169, alpha: 255 })
    } else if s == "darkkhaki"@ {
        Some(Color { red: 189, green: 183, blue: 107, alpha: 255 })
    } else if s == "darkmagenta"@ {
        Some(Color { red: 139, green: 0, blue: 139, alpha: 255 })
    } else if s == "darkolivegreen"@ {
        Some(Color { red: 85, green: 107, blue: 47, alpha: 255 })
    } else if s == "darkorange"@ {
        Some(Color { red: 255, green: 140, blue: 0, alpha: 255 })
    } else if s == "darkorchid"@ {
        Some(Color { red: 153, green: 50, blue: 204, alpha: 255 })
    } else if s == "darkred"@ {
        Some(Color { red: 139, green: 0, blue: 0, alpha: 255 })
    } else if s == "darksalmon"@ {
        Some(Color { red: 233, green: 150, blue: 122, alpha: 255 })
    } else if s == "darkseagreen"@ {
        Some(Color { red: 143, green: 188, blue: 143, alpha: 255 })
    } else if s == "darkslateblue"@ {
        Some(Color { red: 72, green: 61, blue: 139, alpha: 255 })
    } else if s == "darkslategray"@ {
        Some(Color { red: 47, green: 79, blue: 79, alpha: 255 })
    } else if s == "darkslategrey"@ {
        Some(Color { red: 47, green: 79, blue: 79, alpha: 255 })
    } else if s == "darkturquoise"@ {
        Some(Color { red: 0, green: 206, blue: 209, alpha: 255 })
    } else if s == "darkviolet"@ {
        Some(Color { red: 148, green: 0, blue: 211, alpha: 255 })
    } else if s == "deeppink"@ {
        Some(Color { red: 255, green: 20, blue: 147, alpha: 255 })
    } else if s == "deepskyblue"@ {
        Some(Color { red: 0, green: 191, blue: 255, alpha: 255 })
    } else if s == "dimgray"@ {
        Some(Color { red: 105, green: 105, blue: 105, alpha: 255 })
    } else if s == "dimgrey"@ {
        Some(Color { red: 105, green: 105, blue: 105, alpha: 255 })
    } else if s == "dodgerblue"@ {
        Some(Color { red: 30, green: 144, blue: 255, alpha: 255 })
    } else {
        None
    }
}

/// The keywords from `firebrick` through `linen`.
pub open spec fn spec_keyword_e_to_l(s: Seq<char>) -> Option<Color> {
    if s == "firebrick"@ {
        Some(Color { red: 178, green: 34, blue: 34, alpha: 255 })
    } else if s == "floralwhite"@ {
        Some(Color { red: 255, green: 250, blue: 240, alpha: 255 })
    } else if s == "forestgreen"@ {
        Some(Color { red: 34, green: 139, blue: 34, alpha: 255 })
    } else if s == "fuchsia"@ {
        Some(Color { red: 255, green: 0, blue: 255, alpha: 255 })
    } else if s == "gainsboro"@ {
        Some(Color { red: 220, green: 220, blue: 220, alpha: 255 })
    } else if s == "ghostwhite"@ {
        Some(Color { red: 248, green: 248, blue: 255, alpha: 255 })
    } else if s == "gold"@ {
        Some(Color { red: 255, green: 215, blue: 0, alpha: 255 })
    } else if s == "goldenrod"@ {
        Some(Color { red: 218, green: 165, blue: 32, alpha: 255 })
    } else if s == "gray"@ {
        Some(Color { red: 128, green: 128, blue: 128, alpha: 255 })
    } else if s == "green"@ {
        Some(Color { red: 0, green: 128, blue: 0, alpha: 255 })
    } else if s == "greenyellow"@ {
        Some(Color { red: 173, green: 255, blue: 47, alpha: 255 })
    } else if s == "grey"@ {
        Some(Color { red: 128, green: 128, blue: 128, alpha: 255 })
    } else if s == "honeydew"@ {
        Some(Color { red: 240, green: 255, blue: 240, alpha: 255 })
    } else if s == "hotpink"@ {
        Some(Color { red: 255, green: 105, blue: 180, alpha: 255 })
    } else if s == "indianred"@ {
        Some(Color { red: 205, green: 92, blue: 92, alpha: 255 })
    } else if s == "indigo"@ {
        Some(Color { red: 75, green: 0, blue: 130, alpha: 255 })
    } else if s == "ivory"@ {
        Some(Color { red: 255, green: 255, blue: 240, alpha: 255 })
    } else if s == "khaki"@ {
        Some(Color { red: 240, green: 230, blue: 140, alpha: 255 })
    } else if s == "lavender"@ {
        Some(Color { red: 230, green: 230, blue: 250, alpha: 255 })
    } else if s == "lavenderblush"@ {
        Some(Color { red: 255, green: 240, blue: 245, alpha: 255 })
    } else if s == "lawngreen"@ {
        Some(Color { red: 124, green: 252, blue: 0, alpha: 255 })
    } else if s == "lemonchiffon"@ {
        Some(Color { red: 255, green: 250, blue: 205, alpha: 255 })
    } else if s == "lightblue"@ {
        Some(Color { red: 173, green: 216, blue: 230, alpha: 255 })
    } else if s == "lightcoral"@ {
        Some(Color { red: 240, green: 128, blue: 128, alpha: 255 })
    } else if s == "lightcyan"@ {
        Some(Color { red: 224, green: 255, blue: 255, alpha: 255 })
    } else if s == "lightgoldenrodyellow"@ {
        Some(Color { red: 250, green: 250, blue: 210, alpha: 255 })
    } else if s == "lightgray"@ {
        Some(Color { red: 211, green: 211, blue: 211, alpha: 255 })
    } else if s == "lightgreen"@ {
        Some(Color { red: 144, green: 238, blue: 144, alpha: 255 })
    } else if s == "lightgrey"@ {
        Some(Color { red: 211, green: 211, blue: 211, alpha: 255 })
    } else if s == "lightpink"@ {
        Some(Color { red: 255, green: 182, blue: 193, alpha: 255 })
    } else if s == "lightsalmon"@ {
        Some(Color { red: 255, green: 160, blue: 122, alpha: 255 })
    } else if s == "lightseagreen"@ {
        Some(Color { red: 32, green: 178, blue: 170, alpha: 255 })
    } else if s == "lightskyblue"@ {
        Some(Color { red: 135, green: 206, blue: 250, alpha: 255 })
    } else if s == "lightslategray"@ {
        Some(Color { red: 119, green: 136, blue: 153, alpha: 255 })
    } else if s == "lightslategrey"@ {
        Some(Color { red: 119, green: 136, blue: 153, alpha: 255 })
    } else if s == "lightsteelblue"@ {
        Some(Color { red: 176, green: 196, blue: 222, alpha: 255 })
    } else if s == "lightyellow"@ {
        Some(Color { red: 255, green: 255, blue: 224, alpha: 255 })
    } else if s == "lime"@ {
        Some(Color { red: 0, green: 255, blue: 0, alpha: 255 })
    } else if s == "limegreen"@ {
        Some(Color { red: 50, green: 205, blue: 50, alpha: 255 })
    } else if s == "linen"@ {
        Some(Color { red: 250, green: 240, blue: 230, alpha: 255 })
    } else {
        None
    }
}

/// The keywords from `magenta` through `orchid`.
pub open spec fn spec_keyword_m_to_o(s: Seq<char>) -> Option<Color> {
    if s == "magenta"@ {
        Some(Color { red: 255, green: 0, blue: 255, alpha: 255 })
    } else if s == "maroon"@ {
        Some(Color { red: 128, green: 0, blue: 0, alpha: 255 })
    } else if s == "mediumaquamarine"@ {
        Some(Color { red: 102, green: 205, blue: 170, alpha: 255 })
    } else if s == "mediumblue"@ {
        Some(Color { red: 0, green: 0, blue: 205, alpha: 255 })
    } else if s == "mediumorchid"@ {
        Some(Color { red: 186, green: 85, blue: 211, alpha: 255 })
    } else if s == "mediumpurple"@ {
        Some(Color { red: 147, green: 112, blue: 219, alpha: 255 })
    } else if s == "mediumseagreen"@ {
        Some(Color { red: 60, green: 179, blue: 113, alpha: 255 })
    } else if s == "mediumslateblue"@ {
        Some(Color { red: 123, green: 104, blue: 238, alpha: 255 })
    } else if s == "mediumspringgreen"@ {
        Some(Color { red: 0, green: 250, blue: 154, alpha: 255 })
    } else if s == "mediumturquoise"@ {
        Some(Color { red: 72, green: 209, blue: 204, alpha: 255 })
    } else if s == "mediumvioletred"@ {
        Some(Color { red: 199, green: 21, blue: 133, alpha: 255 })
    } else if s == "midnightblue"@ {
        Some(Color { red: 25, green: 25, blue: 112, alpha: 255 })
    } else if s == "mintcream"@ {
        Some(Color { red: 245, green: 255, blue: 250, alpha: 255 })
    } else if s == "mistyrose"@ {
        Some(Color { red: 255, green: 228, blue: 225, alpha: 255 })
    } else if s == "moccasin"@ {
        Some(Color { red: 255, green: 228, blue: 181, alpha: 255 })
    } else if s == "navajowhite"@ {
        Some(Color { red: 255, green: 222, blue: 173, alpha: 255 })
    } else if s == "navy"@ {
        Some(Color { red: 0, green: 0, blue: 128, alpha: 255 })
    } else if s == "oldlace"@ {
        Some(Color { red: 253, green: 245, blue: 230, alpha: 255 })
    } else if s == "olive"@ {
        Some(Color { red: 128, green: 128, blue: 0, alpha: 255 })
    } else if s == "olivedrab"@ {
        Some(Color { red: 107, green: 142, blue: 35, alpha: 255 })
    } else if s == "orange"@ {
        Some(Color { red: 255, green: 165, blue: 0, alpha: 255 })
    } else if s == "orangered"@ {
        Some(Color { red: 255, green: 69, blue: 0, alpha: 255 })
    } else if s == "orchid"@ {
        Some(Color { red: 218, green: 112, blue: 214, alpha: 255 })
    } else {
        None
    }
}

/// The keywords from `palegoldenrod` through `yellowgreen`.
pub open spec fn spec_keyword_p_to_y(s: Seq<char>) -> Option<Color> {
    if s == "palegoldenrod"@ {
        Some(Color { red: 238, green: 232, blue: 170, alpha: 255 })
    } else if s == "palegreen"@ {
        Some(Color { red: 152, green: 251, blue: 152, alpha: 255 })
    } else if s == "paleturquoise"@ {
        Some(Color { red: 175, green: 238, blue: 238, alpha: 255 })
    } else if s == "palevioletred"@ {
        Some(Color { red: 219, green: 112, blue: 147, alpha: 255 })
    } else if s == "papayawhip"@ {
        Some(Color { red: 255, green: 239, blue: 213, alpha: 255 })
    } else if s == "peachpuff"@ {
        Some(Color { red: 255, green: 218, blue: 185, alpha: 255 })
    } else if s == "peru"@ {
        Some(Color { red: 205, green: 133, blue: 63, alpha: 255 })
    } else if s == "pink"@ {
        Some(Color { red: 255, green: 192, blue: 203, alpha: 255 })
    } else if s == "plum"@ {
        Some(Color { red: 221, green: 160, blue: 221, alpha: 255 })
    } else if s == "powderblue"@ {
        Some(Color { red: 176, green: 224, blue: 230, alpha: 255 })
    } else if s == "purple"@ {
        Some(Color { red: 128, green: 0, blue: 128, alpha: 255 })
    } else if s == "rebeccapurple"@ {
        Some(Color { red: 102, green: 51, blue: 153, alpha: 255 })
    } else if s == "red"@ {
        Some(Color { red: 255, green: 0, blue: 0, alpha: 255 })
    } else if s == "rosybrown"@ {
        Some(Color { red: 188, green: 143, blue: 143, alpha: 255 })
    } else if s == "royalblue"@ {
        Some(Color { red: 65, green: 105, blue: 225, alpha: 255 })
    } else if s == "saddlebrown"@ {
        Some(Color { red: 139, green: 69, blue: 19, alpha: 255 })
    } else if s == "salmon"@ {
        Some(Color { red: 250, green: 128, blue: 114, alpha: 255 })
    } else if s == "sandybrown"@ {
        Some(Color { red: 244, green: 164, blue: 96, alpha: 255 })
    } else if s == "seagreen"@ {
        Some(Color { red: 46, green: 139, blue: 87, alpha: 255 })
    } else if s == "seashell"@ {
        Some(Color { red: 255, green: 245, blue: 238, alpha: 255 })
    } else if s == "sienna"@ {
        Some(Color { red: 160, green: 82, blue: 45, alpha: 255 })
    } else if s == "silver"@ {
        Some(Color { red: 192, green: 192, blue: 192, alpha: 255 })
    } else if s == "skyblue"@ {
        Some(Color { red: 135, green: 206, blue: 235, alpha: 255 })
    } else if s == "slateblue"@ {
        Some(Color { red: 106, green: 90, blue: 205, alpha: 255 })
    } else if s == "slategray"@ {
        Some(Color { red: 112, green: 128, blue: 144, alpha: 255 })
    } else if s == "slategrey"@ {
        Some(Color { red: 112, green: 128, blue: 144, alpha: 255 })
    } else if s == "snow"@ {
        Some(Color { red: 255, green: 250, blue: 250, alpha: 255 })
    } else if s == "springgreen"@ {
        Some(Color { red: 0, green: 255, blue: 127, alpha: 255 })
    } else if s == "steelblue"@ {
        Some(Color { red: 70, green: 130, blue: 180, alpha: 255 })
    } else if s == "tan"@ {
        Some(Color { red: 210, green: 180, blue: 140, alpha: 255 })
    } else if s == "teal"@ {
        Some(Color { red: 0, green: 128, blue: 128, alpha: 255 })
    } else if s == "thistle"@ {
        Some(Color { red: 216, green: 191, blue: 216, alpha: 255 })
    } else if s == "tomato"@ {
        Some(Color { red: 255, green: 99, blue: 71, alpha: 255 })
    } else if s == "turquoise"@ {
        Some(Color { red: 64, green: 224, blue: 208, alpha: 255 })
    } else if s == "violet"@ {
        Some(Color { red: 238, green: 130, blue: 238, alpha: 255 })
    } else if s == "wheat"@ {
        Some(Color { red: 245, green: 222, blue: 179, alpha: 255 })
    } else if s == "white"@ {
        Some(Color { red: 255, green: 255, blue: 255, alpha: 255 })
    } else if s == "whitesmoke"@ {
        Some(Color { red: 245, green: 245, blue: 245, alpha: 255 })
    } else if s == "yellow"@ {
        Some(Color { red: 255, green: 255, blue: 0, alpha: 255 })
    } else if s == "yellowgreen"@ {
        Some(Color { red: 154, green: 205, blue: 50, alpha: 255 })
    } else {
        None
    }
}

fn keyword_a_to_d(v: &Vec<char>) -> (r: Option<Color>)
    ensures
        r == spec_keyword_a_to_d(v@),
{
    if chars_eq_str(v, "aliceblue") {
        Some(Color { red: 240, green: 248, blue: 255, alpha: 255 })
    } else if chars_eq_str(v, "antiquewhite") {
        Some(Color { red: 250, green: 235, blue: 215, alpha: 255 })
    } else if chars_eq_str(v, "aqua") {
        Some(Color { red: 0, green: 255, blue: 255, alpha: 255 })
    } else if chars_eq_str(v, "aquamarine") {
        Some(Color { red: 127, green: 255, blue: 212, alpha: 255 })
    } else if chars_eq_str(v, "azure") {
        Some(Color { red: 240, green: 255, blue: 255, alpha: 255 })
    } else if chars_eq_str(v, "beige") {
        Some(Color { red: 245, green: 245, blue: 220, alpha: 255 })
    } else if chars_eq_str(v, "bisque") {
        Some(Color { red: 255, green: 228, blue: 196, alpha: 255 })
    } else if chars_eq_str(v, "black") {
        Some(Color { red: 0, green: 0, blue: 0, alpha: 255 })
    } else if chars_eq_str(v, "blanchedalmond") {
        Some(Color { red: 255, green: 235, blue: 205, alpha: 255 })
    } else if chars_eq_str(v, "blue") {
        Some(Color { red: 0, green: 0, blue: 255, alpha: 255 })
    } else if chars_eq_str(v, "blueviolet") {
        Some(Color { red: 138, green: 43, blue: 226, alpha: 255 })
    } else if chars_eq_str(v, "brown") {
        Some(Color { red: 165, green: 42, blue: 42, alpha: 255 })
    } else if chars_eq_str(v, "burlywood") {
        Some(Color { red: 222, green: 184, blue: 135, alpha: 255 })
    } else if chars_eq_str(v, "cadetblue") {
        Some(Color { red: 95, green: 158, blue: 160, alpha: 255 })
    } else if chars_eq_str(v, "chartreuse") {
        Some(Color { red: 127, green: 255, blue: 0, alpha: 255 })
    } else if chars_eq_str(v, "chocolate") {
        Some(Color { red: 210, green: 105, blue: 30, alpha: 255 })
    } else if chars_eq_str(v, "coral") {
        Some(Color { red: 255, green: 127, blue: 80, alpha: 255 })
    } else if chars_eq_str(v, "cornflowerblue") {
        Some(Color { red: 100, green: 149, blue: 237, alpha: 255 })
    } else if chars_eq_str(v, "cornsilk") {
        Some(Color { red: 255, green: 248, blue: 220, alpha: 255 })
    } else if chars_eq_str(v, "crimson") {
        Some(Color { red: 220, green: 20, blue: 60, alpha: 255 })
    } else if chars_eq_str(v, "cyan") {
        Some(Color { red: 0, green: 255, blue: 255, alpha: 255 })
    } else if chars_eq_str(v, "darkblue") {
        Some(Color { red: 0, green: 0, blue: 139, alpha: 255 })
    } else if chars_eq_str(v, "darkcyan") {
        Some(Color { red: 0, green: 139, blue: 139, alpha: 255 })
    } else if chars_eq_str(v, "darkgoldenrod") {
        Some(Color { red: 184, green: 134, blue: 11, alpha: 255 })
    } else if chars_eq_str(v, "darkgray") {
        Some(Color { red: 169, green: 169, blue: 169, alpha: 255 })
    } else if chars_eq_str(v, "darkgreen") {
        Some(Color { red: 0, green: 100, blue: 0, alpha: 255 })
    } else if chars_eq_str(v, "darkgrey") {
        Some(Color { red: 169, green: 169, blue: 169, alpha: 255 })
    } else if chars_eq_str(v, "darkkhaki") {
        Some(Color { red: 189, green: 183, blue: 107, alpha: 255 })
    } else if chars_eq_str(v, "darkmagenta") {
        Some(Color { red: 139, green: 0, blue: 139, alpha: 255 })
    } else if chars_eq_str(v, "darkolivegreen") {
        Some(Color { red: 85, green: 107, blue: 47, alpha: 255 })
    } else if chars_eq_str(v, "darkorange") {
        Some(Color { red: 255, green: 140, blue: 0, alpha: 255 })
    } else if chars_eq_str(v, "darkorchid") {
        Some(Color { red: 153, green: 50, blue: 204, alpha: 255 })
    } else if chars_eq_str(v, "darkred") {
        Some(Color { red: 139, green: 0, blue: 0, alpha: 255 })
    } else if chars_eq_str(v, "darksalmon") {
        Some(Color { red: 233, green: 150, blue: 122, alpha: 255 })
    } else if chars_eq_str(v, "darkseagreen") {
        Some(Color { red: 143, green: 188, blue: 143, alpha: 255 })
    } else if chars_eq_str(v, "darkslateblue") {
        Some(Color { red: 72, green: 61, blue: 139, alpha: 255 })
    } else if chars_eq_str(v, "darkslategray") {
        Some(Color { red: 47, green: 79, blue: 79, alpha: 255 })
    } else if chars_eq_str(v, "darkslategrey") {
        Some(Color { red: 47, green: 79, blue: 79, alpha: 255 })
    } else if chars_eq_str(v, "darkturquoise") {
        Some(Color { red: 0, green: 206, blue: 209, alpha: 255 })
    } else if chars_eq_str(v, "darkviolet") {
        Some(Color { red: 148, green: 0, blue: 211, alpha: 255 })
    } else if chars_eq_str(v, "deeppink") {
        Some(Color { red: 255, green: 20, blue: 147, alpha: 255 })
    } else if chars_eq_str(v, "deepskyblue") {
        Some(Color { red: 0, green: 191, blue: 255, alpha: 255 })
    } else if chars_eq_str(v, "dimgray") {
        Some(Color { red: 105, green: 105, blue: 105, alpha: 255 })
    } else if chars_eq_str(v, "dimgrey") {
        Some(Color { red: 105, green: 105, blue: 105, alpha: 255 })
    } else if chars_eq_str(v, "dodgerblue") {
        Some(Color { red: 30, green: 144, blue: 255, alpha: 255 })
    } else {
        None
    }
}

fn keyword_e_to_l(v: &Vec<char>) -> (r: Option<Color>)
    ensures
        r == spec_keyword_e_to_l(v@),
{
    if chars_eq_str(v, "firebrick") {
        Some(Color { red: 178, green: 34, blue: 34, alpha: 255 })
    } else if chars_eq_str(v, "floralwhite") {
        Some(Color { red: 255, green: 250, blue: 240, alpha: 255 })
    } else if chars_eq_str(v, "forestgreen") {
        Some(Color { red: 34, green: 139, blue: 34, alpha: 255 })
    } else if chars_eq_str(v, "fuchsia") {
        Some(Color { red: 255, green: 0, blue: 255, alpha: 255 })
    } else if chars_eq_str(v, "gainsboro") {
        Some(Color { red: 220, green: 220, blue: 220, alpha: 255 })
    } else if chars_eq_str(v, "ghostwhite") {
        Some(Color { red: 248, green: 248, blue: 255, alpha: 255 })
    } else if chars_eq_str(v, "gold") {
        Some(Color { red: 255, green: 215, blue: 0, alpha: 255 })
    } else if chars_eq_str(v, "goldenrod") {
        Some(Color { red: 218, green: 165, blue: 32, alpha: 255 })
    } else if chars_eq_str(v, "gray") {
        Some(Color { red: 128, green: 128, blue: 128, alpha: 255 })
    } else if chars_eq_str(v, "green") {
        Some(Color { red: 0, green: 128, blue: 0, alpha: 255 })
    } else if chars_eq_str(v, "greenyellow") {
        Some(Color { red: 173, green: 255, blue: 47, alpha: 255 })
    } else if chars_eq_str(v, "grey") {
        Some(Color { red: 128, green: 128, blue: 128, alpha: 255 })
    } else if chars_eq_str(v, "honeydew") {
        Some(Color { red: 240, green: 255, blue: 240, alpha: 255 })
    } else if chars_eq_str(v, "hotpink") {
        Some(Color { red: 255, green: 105, blue: 180, alpha: 255 })
    } else if chars_eq_str(v, "indianred") {
        Some(Color { red: 205, green: 92, blue: 92, alpha: 255 })
    } else if chars_eq_str(v, "indigo") {
        Some(Color { red: 75, green: 0, blue: 130, alpha: 255 })
    } else if chars_eq_str(v, "ivory") {
        Some(Color { red: 255, green: 255, blue: 240, alpha: 255 })
    } else if chars_eq_str(v, "khaki") {
        Some(Color { red: 240, green: 230, blue: 140, alpha: 255 })
    } else if chars_eq_str(v, "lavender") {
        Some(Color { red: 230, green: 230, blue: 250, alpha: 255 })
    } else if chars_eq_str(v, "lavenderblush") {
        Some(Color { red: 255, green: 240, blue: 245, alpha: 255 })
    } else if chars_eq_str(v, "lawngreen") {
        Some(Color { red: 124, green: 252, blue: 0, alpha: 255 })
    } else if chars_eq_str(v, "lemonchiffon") {
        Some(Color { red: 255, green: 250, blue: 205, alpha: 255 })
    } else if chars_eq_str(v, "lightblue") {
        Some(Color { red: 173, green: 216, blue: 230, alpha: 255 })
    } else if chars_eq_str(v, "lightcoral") {
        Some(Color { red: 240, green: 128, blue: 128, alpha: 255 })
    } else if chars_eq_str(v, "lightcyan") {
        Some(Color { red: 224, green: 255, blue: 255, alpha: 255 })
    } else if chars_eq_str(v, "lightgoldenrodyellow") {
        Some(Color { red: 250, green: 250, blue: 210, alpha: 255 })
    } else if chars_eq_str(v, "lightgray") {
        Some(Color { red: 211, green: 211, blue: 211, alpha: 255 })
    } else if chars_eq_str(v, "lightgreen") {
        Some(Color { red: 144, green: 238, blue: 144, alpha: 255 })
    } else if chars_eq_str(v, "lightgrey") {
        Some(Color { red: 211, green: 211, blue: 211, alpha: 255 })
    } else if chars_eq_str(v, "lightpink") {
        Some(Color { red: 255, green: 182, blue: 193, alpha: 255 })
    } else if chars_eq_str(v, "lightsalmon") {
        Some(Color { red: 255, green: 160, blue: 122, alpha: 255 })
    } else if chars_eq_str(v, "lightseagreen") {
        Some(Color { red: 32, green: 178, blue: 170, alpha: 255 })
    } else if chars_eq_str(v, "lightskyblue") {
        Some(Color { red: 135, green: 206, blue: 250, alpha: 255 })
    } else if chars_eq_str(v, "lightslategray") {
        Some(Color { red: 119, green: 136, blue: 153, alpha: 255 })
    } else if chars_eq_str(v, "lightslategrey") {
        Some(Color { red: 119, green: 136, blue: 153, alpha: 255 })
    } else if chars_eq_str(v, "lightsteelblue") {
        Some(Color { red: 176, green: 196, blue: 222, alpha: 255 })
    } else if chars_eq_str(v, "lightyellow") {
        Some(Color { red: 255, green: 255, blue: 224, alpha: 255 })
    } else if chars_eq_str(v, "lime") {
        Some(Color { red: 0, green: 255, blue: 0, alpha: 255 })
    } else if chars_eq_str(v, "limegreen") {
        Some(Color { red: 50, green: 205, blue: 50, alpha: 255 })
    } else if chars_eq_str(v, "linen") {
        Some(Color { red: 250, green: 240, blue: 230, alpha: 255 })
    } else {
        None
    }
}

fn keyword_m_to_o(v: &Vec<char>) -> (r: Option<Color>)
    ensures
        r == spec_keyword_m_to_o(v@),
{
    if chars_eq_str(v, "magenta") {
        Some(Color { red: 255, green: 0, blue: 255, alpha: 255 })
    } else if chars_eq_str(v, "maroon") {
        Some(Color { red: 128, green: 0, blue: 0, alpha: 255 })
    } else if chars_eq_str(v, "mediumaquamarine") {
        Some(Color { red: 102, green: 205, blue: 170, alpha: 255 })
    } else if chars_eq_str(v, "mediumblue") {
        Some(Color { red: 0, green: 0, blue: 205, alpha: 255 })
    } else if chars_eq_str(v, "mediumorchid") {
        Some(Color { red: 186, green: 85, blue: 211, alpha: 255 })
    } else if chars_eq_str(v, "mediumpurple") {
        Some(Color { red: 147, green: 112, blue: 219, alpha: 255 })
    } else if chars_eq_str(v, "mediumseagreen") {
        Some(Color { red: 60, green: 179, blue: 113, alpha: 255 })
    } else if chars_eq_str(v, "mediumslateblue") {
        Some(Color { red: 123, green: 104, blue: 238, alpha: 255 })
    } else if chars_eq_str(v, "mediumspringgreen") {
        Some(Color { red: 0, green: 250, blue: 154, alpha: 255 })
    } else if chars_eq_str(v, "mediumturquoise") {
        Some(Color { red: 72, green: 209, blue: 204, alpha: 255 })
    } else if chars_eq_str(v, "mediumvioletred") {
        Some(Color { red: 199, green: 21, blue: 133, alpha: 255 })
    } else if chars_eq_str(v, "midnightblue") {
        Some(Color { red: 25, green: 25, blue: 112, alpha: 255 })
    } else if chars_eq_str(v, "mintcream") {
        Some(Color { red: 245, green: 255, blue: 250, alpha: 255 })
    } else if chars_eq_str(v, "mistyrose") {
        Some(Color { red: 255, green: 228, blue: 225, alpha: 255 })
    } else if chars_eq_str(v, "moccasin") {
        Some(Color { red: 255, green: 228, blue: 181, alpha: 255 })
    } else if chars_eq_str(v, "navajowhite") {
        Some(Color { red: 255, green: 222, blue: 173, alpha: 255 })
    } else if chars_eq_str(v, "navy") {
        Some(Color { red: 0, green: 0, blue: 128, alpha: 255 })
    } else if chars_eq_str(v, "oldlace") {
        Some(Color { red: 253, green: 245, blue: 230, alpha: 255 })
    } else if chars_eq_str(v, "olive") {
        Some(Color { red: 128, green: 128, blue: 0, alpha: 255 })
    } else if chars_eq_str(v, "olivedrab") {
        Some(Color { red: 107, green: 142, blue: 35, alpha: 255 })
    } else if chars_eq_str(v, "orange") {
        Some(Color { red: 255, green: 165, blue: 0, alpha: 255 })
    } else if chars_eq_str(v, "orangered") {
        Some(Color { red: 255, green: 69, blue: 0, alpha: 255 })
    } else if chars_eq_str(v, "orchid") {
        Some(Color { red: 218, green: 112, blue: 214, alpha: 255 })
    } else {
        None
    }
}

fn keyword_p_to_y(v: &Vec<char>) -> (r: Option<Color>)
    ensures
        r == spec_keyword_p_to_y(v@),
{
    if chars_eq_str(v, "palegoldenrod") {
        Some(Color { red: 238, green: 232, blue: 170, alpha: 255 })
    } else if chars_eq_str(v, "palegreen") {
        Some(Color { red: 152, green: 251, blue: 152, alpha: 255 })
    } else if chars_eq_str(v, "paleturquoise") {
        Some(Color { red: 175, green: 238, blue: 238, alpha: 255 })
    } else if chars_eq_str(v, "palevioletred") {
        Some(Color { red: 219, green: 112, blue: 147, alpha: 255 })
    } else if chars_eq_str(v, "papayawhip") {
        Some(Color { red: 255, green: 239, blue: 213, alpha: 255 })
    } else if chars_eq_str(v, "peachpuff") {
        Some(Color { red: 255, green: 218, blue: 185, alpha: 255 })
    } else if chars_eq_str(v, "peru") {
        Some(Color { red: 205, green: 133, blue: 63, alpha: 255 })
    } else if chars_eq_str(v, "pink") {
        Some(Color { red: 255, green: 192, blue: 203, alpha: 255 })
    } else if chars_eq_str(v, "plum") {
        Some(Color { red: 221, green: 160, blue: 221, alpha: 255 })
    } else if chars_eq_str(v, "powderblue") {
        Some(Color { red: 176, green: 224, blue: 230, alpha: 255 })
    } else if chars_eq_str(v, "purple") {
        Some(Color { red: 128, green: 0, blue: 128, alpha: 255 })
    } else if chars_eq_str(v, "rebeccapurple") {
        Some(Color { red: 102, green: 51, blue: 153, alpha: 255 })
    } else if chars_eq_str(v, "red") {
        Some(Color { red: 255, green: 0, blue: 0, alpha: 255 })
    } else if chars_eq_str(v, "rosybrown") {
        Some(Color { red: 188, green: 143, blue: 143, alpha: 255 })
    } else if chars_eq_str(v, "royalblue") {
        Some(Color { red: 65, green: 105, blue: 225, alpha: 255 })
    } else if chars_eq_str(v, "saddlebrown") {
        Some(Color { red: 139, green: 69, blue: 19, alpha: 255 })
    } else if chars_eq_str(v, "salmon") {
        Some(Color { red: 250, green: 128, blue: 114, alpha: 255 })
    } else if chars_eq_str(v, "sandybrown") {
        Some(Color { red: 244, green: 164, blue: 96, alpha: 255 })
    } else if chars_eq_str(v, "seagreen") {
        Some(Color { red: 46, green: 139, blue: 87, alpha: 255 })
    } else if chars_eq_str(v, "seashell") {
        Some(Color { red: 255, green: 245, blue: 238, alpha: 255 })
    } else if chars_eq_str(v, "sienna") {
        Some(Color { red: 160, green: 82, blue: 45, alpha: 255 })
    } else if chars_eq_str(v, "silver") {
        Some(Color { red: 192, green: 192, blue: 192, alpha: 255 })
    } else if chars_eq_str(v, "skyblue") {
        Some(Color { red: 135, green: 206, blue: 235, alpha: 255 })
    } else if chars_eq_str(v, "slateblue") {
        Some(Color { red: 106, green: 90, blue: 205, alpha: 255 })
    } else if chars_eq_str(v, "slategray") {
        Some(Color { red: 112, green: 128, blue: 144, alpha: 255 })
    } else if chars_eq_str(v, "slategrey") {
        Some(Color { red: 112, green: 128, blue: 144, alpha: 255 })
    } else if chars_eq_str(v, "snow") {
        Some(Color { red: 255, green: 250, blue: 250, alpha: 255 })
    } else if chars_eq_str(v, "springgreen") {
        Some(Color { red: 0, green: 255, blue: 127, alpha: 255 })
    } else if chars_eq_str(v, "steelblue") {
        Some(Color { red: 70, green: 130, blue: 180, alpha: 255 })
    } else if chars_eq_str(v, "tan") {
        Some(Color { red: 210, green: 180, blue: 140, alpha: 255 })
    } else if chars_eq_str(v, "teal") {
        Some(Color { red: 0, green: 128, blue: 128, alpha: 255 })
    } else if chars_eq_str(v, "thistle") {
        Some(Color { red: 216, green: 191, blue: 216, alpha: 255 })
    } else if chars_eq_str(v, "tomato") {
        Some(Color { red: 255, green: 99, blue: 71, alpha: 255 })
    } else if chars_eq_str(v, "turquoise") {
        Some(Color { red: 64, green: 224, blue: 208, alpha: 255 })
    } else if chars_eq_str(v, "violet") {
        Some(Color { red: 238, green: 130, blue: 238, alpha: 255 })
    } else if chars_eq_str(v, "wheat") {
        Some(Color { red: 245, green: 222, blue: 179, alpha: 255 })
    } else if chars_eq_str(v, "white") {
        Some(Color { red: 255, green: 255, blue: 255, alpha: 255 })
    } else if chars_eq_str(v, "whitesmoke") {
        Some(Color { red: 245, green: 245, blue: 245, alpha: 255 })
    } else if chars_eq_str(v, "yellow") {
        Some(Color { red: 255, green: 255, blue: 0, alpha: 255 })
    } else if chars_eq_str(v, "yellowgreen") {
        Some(Color { red: 154, green: 205, blue: 50, alpha: 255 })
    } else {
        None
    }
}

/// The color of a CSS keyword, or nothing for any other text.
pub open spec fn spec_keyword_color(s: Seq<char>) -> Option<Color> {
    if spec_keyword_a_to_d(s) is Some {
        spec_keyword_a_to_d(s)
    } else if spec_keyword_e_to_l(s) is Some {
        spec_keyword_e_to_l(s)
    } else if spec_keyword_m_to_o(s) is Some {
        spec_keyword_m_to_o(s)
    } else {
        spec_keyword_p_to_y(s)
    }
}

/// Looks a keyword candidate up in the table.
pub(crate) fn keyword_color_of_chars(v: &Vec<char>) -> (r: Option<Color>)
    ensures
        r == spec_keyword_color(v@),
{
    match keyword_a_to_d(v) {
        Some(c) => Some(c),
        None => match keyword_e_to_l(v) {
            Some(c) => Some(c),
            None => match keyword_m_to_o(v) {
                Some(c) => Some(c),
                None => keyword_p_to_y(v),
            },
        },
    }
}

/// Looks a color keyword up; any text outside the table is no color.
pub fn parse_keyword_str(keyword: &str) -> (r: Option<Color>)
    ensures
        r == spec_keyword_color(keyword@),
{
    let v = crate::css::chars_of(keyword);
    keyword_color_of_chars(&v)
}

/// Whether the characters of `v` are exactly the text of `lit`.
pub(crate) fn chars_eq_str(v: &Vec<char>, lit: &str) -> (r: bool)
    ensures
        r == (v@ == lit@),
{
    let n = lit.unicode_len();
    if v.len() != n {
        return false;
    }
    let r = crate::scan::vec_matches_at(v, 0, lit);
    proof {
        if r {
            assert(v@.subrange(0, n as int) =~= v@);
        } else if v@ == lit@ {
            assert(v@.subrange(0, n as int) =~= lit@);
        }
    }
    r
}

} // verus!
