use vstd::prelude::*;
use crate::text::chars_are;

verus! {

/// Whether an ISO 639-1 code names a language written right to left (part 1 of 1).
pub open spec fn is_rtl_iso639_0(c: Seq<char>) -> bool {
    c == "ar"@
    || c == "dv"@
    || c == "fa"@
    || c == "he"@
    || c == "ks"@
    || c == "ku"@
    || c == "pa"@
    || c == "ps"@
    || c == "sd"@
    || c == "tk"@
    || c == "ug"@
    || c == "ur"@
    || c == "yi"@
}

fn is_rtl_iso639_part_0(c: &[char]) -> (r: bool)
    ensures
        r == is_rtl_iso639_0(c@),
{
    chars_are(c, "ar")
        || chars_are(c, "dv")
        || chars_are(c, "fa")
        || chars_are(c, "he")
        || chars_are(c, "ks")
        || chars_are(c, "ku")
        || chars_are(c, "pa")
        || chars_are(c, "ps")
        || chars_are(c, "sd")
        || chars_are(c, "tk")
        || chars_are(c, "ug")
        || chars_are(c, "ur")
        || chars_are(c, "yi")
}

/// Whether an ISO 639-1 code names a language written right to left.
pub open spec fn is_rtl_iso639(c: Seq<char>) -> bool {
    is_rtl_iso639_0(c)
}

/// Whether an ISO 639-1 code names a language written right to left.
pub fn is_rtl_iso639_check(c: &[char]) -> (r: bool)
    ensures
        r == is_rtl_iso639(c@),
{
    is_rtl_iso639_part_0(c)
}

/// Whether an ISO 639-1 code names a language written left to right (part 1 of 5).
pub open spec fn is_ltr_iso639_0(c: Seq<char>) -> bool {
    c == "aa"@
    || c == "ab"@
    || c == "ae"@
    || c == "af"@
    || c == "ak"@
    || c == "am"@
    || c == "an"@
    || c == "as"@
    || c == "av"@
    || c == "ay"@
    || c == "az"@
    || c == "ba"@
    || c == "be"@
    || c == "bg"@
    || c == "bi"@
    || c == "bn"@
    || c == "bo"@
    || c == "br"@
    || c == "bs"@
    || c == "ca"@
    || c == "ce"@
    || c == "ch"@
    || c == "co"@
    || c == "cr"@
    || c == "cs"@
    || c == "cu"@
    || c == "cv"@
    || c == "cy"@
    || c == "da"@
    || c == "de"@
    || c == "dz"@
    || c == "ee"@
    || c == "el"@
    || c == "en"@
    || c == "eo"@
    || c == "es"@
    || c == "et"@
    || c == "eu"@
    || c == "ff"@
    || c == "fi"@
}

fn is_ltr_iso639_part_0(c: &[char]) -> (r: bool)
    ensures
        r == is_ltr_iso639_0(c@),
{
    chars_are(c, "aa")
        || chars_are(c, "ab")
        || chars_are(c, "ae")
        || chars_are(c, "af")
        || chars_are(c, "ak")
        || chars_are(c, "am")
        || chars_are(c, "an")
        || chars_are(c, "as")
        || chars_are(c, "av")
        || chars_are(c, "ay")
        || chars_are(c, "az")
        || chars_are(c, "ba")
        || chars_are(c, "be")
        || chars_are(c, "bg")
        || chars_are(c, "bi")
        || chars_are(c, "bn")
        || chars_are(c, "bo")
        || chars_are(c, "br")
        || chars_are(c, "bs")
        || chars_are(c, "ca")
        || chars_are(c, "ce")
        || chars_are(c, "ch")
        || chars_are(c, "co")
        || chars_are(c, "cr")
        || chars_are(c, "cs")
        || chars_are(c, "cu")
        || chars_are(c, "cv")
        || chars_are(c, "cy")
        || chars_are(c, "da")
        || chars_are(c, "de")
        || chars_are(c, "dz")
        || chars_are(c, "ee")
        || chars_are(c, "el")
        || chars_are(c, "en")
        || chars_are(c, "eo")
        || chars_are(c, "es")
        || chars_are(c, "et")
        || chars_are(c, "eu")
        || chars_are(c, "ff")
        || chars_are(c, "fi")
}

/// Whether an ISO 639-1 code names a language written left to right (part 2 of 5).
pub open spec fn is_ltr_iso639_1(c: Seq<char>) -> bool {
    c == "fj"@
    || c == "fo"@
    || c == "fr"@
    || c == "fy"@
    || c == "ga"@
    || c == "gd"@
    || c == "gl"@
    || c == "gn"@
    || c == "gu"@
    || c == "gv"@
    || c == "ha"@
    || c == "hi"@
    || c == "ho"@
    || c == "hr"@
    || c == "ht"@
    || c == "hu"@
    || c == "hy"@
    || c == "hz"@
    || c == "ia"@
    || c == "id"@
    || c == "ie"@
    || c == "ig"@
    || c == "ii"@
    || c == "ik"@
    || c == "io"@
    || c == "is"@
    || c == "it"@
    || c == "iu"@
    || c == "jv"@
    || c == "ka"@
    || c == "kg"@
    || c == "ki"@
    || c == "kj"@
    || c == "kk"@
    || c == "kl"@
    || c == "km"@
    || c == "kn"@
    || c == "kr"@
    || c == "kv"@
    || c == "kw"@
}

fn is_ltr_iso639_part_1(c: &[char]) -> (r: bool)
    ensures
        r == is_ltr_iso639_1(c@),
{
    chars_are(c, "fj")
        || chars_are(c, "fo")
        || chars_are(c, "fr")
        || chars_are(c, "fy")
        || chars_are(c, "ga")
        || chars_are(c, "gd")
        || chars_are(c, "gl")
        || chars_are(c, "gn")
        || chars_are(c, "gu")
        || chars_are(c, "gv")
        || chars_are(c, "ha")
        || chars_are(c, "hi")
        || chars_are(c, "ho")
        || chars_are(c, "hr")
        || chars_are(c, "ht")
        || chars_are(c, "hu")
        || chars_are(c, "hy")
        || chars_are(c, "hz")
        || chars_are(c, "ia")
        || chars_are(c, "id")
        || chars_are(c, "ie")
        || chars_are(c, "ig")
        || chars_are(c, "ii")
        || chars_are(c, "ik")
        || chars_are(c, "io")
        || chars_are(c, "is")
        || chars_are(c, "it")
        || chars_are(c, "iu")
        || chars_are(c, "jv")
        || chars_are(c, "ka")
        || chars_are(c, "kg")
        || chars_are(c, "ki")
        || chars_are(c, "kj")
        || chars_are(c, "kk")
        || chars_are(c, "kl")
        || chars_are(c, "km")
        || chars_are(c, "kn")
        || chars_are(c, "kr")
        || chars_are(c, "kv")
        || chars_are(c, "kw")
}

/// Whether an ISO 639-1 code names a language written left to right (part 3 of 5).
pub open spec fn is_ltr_iso639_2(c: Seq<char>) -> bool {
    c == "ky"@
    || c == "la"@
    || c == "lb"@
    || c == "lg"@
    || c == "li"@
    || c == "ln"@
    || c == "lo"@
    || c == "lt"@
    || c == "lu"@
    || c == "lv"@
    || c == "mg"@
    || c == "mh"@
    || c == "mi"@
    || c == "mk"@
    || c == "ml"@
    || c == "mr"@
    || c == "ms"@
    || c == "mt"@
    || c == "my"@
    || c == "na"@
    || c == "nb"@
    || c == "nd"@
    || c == "ne"@
    || c == "ng"@
    || c == "nl"@
    || c == "nn"@
    || c == "no"@
    || c == "nr"@
    || c == "nv"@
    || c == "ny"@
    || c == "oc"@
    || c == "oj"@
    || c == "om"@
    || c == "or"@
    || c == "os"@
    || c == "pi"@
    || c == "pl"@
    || c == "pt"@
    || c == "qu"@
    || c == "rm"@
}

fn is_ltr_iso639_part_2(c: &[char]) -> (r: bool)
    ensures
        r == is_ltr_iso639_2(c@),
{
    chars_are(c, "ky")
        || chars_are(c, "la")
        || chars_are(c, "lb")
        || chars_are(c, "lg")
        || chars_are(c, "li")
        || chars_are(c, "ln")
        || chars_are(c, "lo")
        || chars_are(c, "lt")
        || chars_are(c, "lu")
        || chars_are(c, "lv")
        || chars_are(c, "mg")
        || chars_are(c, "mh")
        || chars_are(c, "mi")
        || chars_are(c, "mk")
        || chars_are(c, "ml")
        || chars_are(c, "mr")
        || chars_are(c, "ms")
        || chars_are(c, "mt")
        || chars_are(c, "my")
        || chars_are(c, "na")
        || chars_are(c, "nb")
        || chars_are(c, "nd")
        || chars_are(c, "ne")
        || chars_are(c, "ng")
        || chars_are(c, "nl")
        || chars_are(c, "nn")
        || chars_are(c, "no")
        || chars_are(c, "nr")
        || chars_are(c, "nv")
        || chars_are(c, "ny")
        || chars_are(c, "oc")
        || chars_are(c, "oj")
        || chars_are(c, "om")
        || chars_are(c, "or")
        || chars_are(c, "os")
        || chars_are(c, "pi")
        || chars_are(c, "pl")
        || chars_are(c, "pt")
        || chars_are(c, "qu")
        || chars_are(c, "rm")
}

/// Whether an ISO 639-1 code names a language written left to right (part 4 of 5).
pub open spec fn is_ltr_iso639_3(c: Seq<char>) -> bool {
    c == "rn"@
    || c == "ro"@
    || c == "ru"@
    || c == "rw"@
    || c == "sa"@
    || c == "sc"@
    || c == "se"@
    || c == "sg"@
    || c == "si"@
    || c == "sk"@
    || c == "sl"@
    || c == "sm"@
    || c == "sn"@
    || c == "so"@
    || c == "sq"@
    || c == "sr"@
    || c == "ss"@
    || c == "st"@
    || c == "su"@
    || c == "sv"@
    || c == "sw"@
    || c == "ta"@
    || c == "te"@
    || c == "tg"@
    || c == "th"@
    || c == "ti"@
    || c == "tl"@
    || c == "tn"@
    || c == "to"@
    || c == "tr"@
    || c == "ts"@
    || c == "tt"@
    || c == "tw"@
    || c == "ty"@
    || c == "uk"@
    || c == "uz"@
    || c == "ve"@
    || c == "vo"@
    || c == "wa"@
    || c == "wo"@
}

fn is_ltr_iso639_part_3(c: &[char]) -> (r: bool)
    ensures
        r == is_ltr_iso639_3(c@),
{
    chars_are(c, "rn")
        || chars_are(c, "ro")
        || chars_are(c, "ru")
        || chars_are(c, "rw")
        || chars_are(c, "sa")
        || chars_are(c, "sc")
        || chars_are(c, "se")
        || chars_are(c, "sg")
        || chars_are(c, "si")
        || chars_are(c, "sk")
        || chars_are(c, "sl")
        || chars_are(c, "sm")
        || chars_are(c, "sn")
        || chars_are(c, "so")
        || chars_are(c, "sq")
        || chars_are(c, "sr")
        || chars_are(c, "ss")
        || chars_are(c, "st")
        || chars_are(c, "su")
        || chars_are(c, "sv")
        || chars_are(c, "sw")
        || chars_are(c, "ta")
        || chars_are(c, "te")
        || chars_are(c, "tg")
        || chars_are(c, "th")
        || chars_are(c, "ti")
        || chars_are(c, "tl")
        || chars_are(c, "tn")
        || chars_are(c, "to")
        || chars_are(c, "tr")
        || chars_are(c, "ts")
        || chars_are(c, "tt")
        || chars_are(c, "tw")
        || chars_are(c, "ty")
        || chars_are(c, "uk")
        || chars_are(c, "uz")
        || chars_are(c, "ve")
        || chars_are(c, "vo")
        || chars_are(c, "wa")
        || chars_are(c, "wo")
}

/// Whether an ISO 639-1 code names a language written left to right (part 5 of 5).
pub open spec fn is_ltr_iso639_4(c: Seq<char>) -> bool {
    c == "xh"@
    || c == "yo"@
    || c == "zu"@
}

fn is_ltr_iso639_part_4(c: &[char]) -> (r: bool)
    ensures
        r == is_ltr_iso639_4(c@),
{
    chars_are(c, "xh")
        || chars_are(c, "yo")
        || chars_are(c, "zu")
}

/// Whether an ISO 639-1 code names a language written left to right.
pub open spec fn is_ltr_iso639(c: Seq<char>) -> bool {
    is_ltr_iso639_0(c) || is_ltr_iso639_1(c) || is_ltr_iso639_2(c) || is_ltr_iso639_3(c) || is_ltr_iso639_4(c)
}

/// Whether an ISO 639-1 code names a language written left to right.
pub fn is_ltr_iso639_check(c: &[char]) -> (r: bool)
    ensures
        r == is_ltr_iso639(c@),
{
    is_ltr_iso639_part_0(c) || is_ltr_iso639_part_1(c) || is_ltr_iso639_part_2(c) || is_ltr_iso639_part_3(c) || is_ltr_iso639_part_4(c)
}

} // verus!
