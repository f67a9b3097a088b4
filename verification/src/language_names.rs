use vstd::prelude::*;
use crate::text::chars_are;

verus! {

/// The name of a language as spoken in a country, by lowercase `lang-country` code (part 1 of 18).
pub open spec fn country_language_name_0(c: Seq<char>) -> Option<Seq<char>> {
    if c == "af-na"@ {
        Some("Afrikaans (Namibia)"@)
    } else if c == "af-za"@ {
        Some("Afrikaans (South Africa)"@)
    } else if c == "ak-gh"@ {
        Some("Akan (Ghana)"@)
    } else if c == "am-et"@ {
        Some("አማርኛ (ኢትዮጵያ)"@)
    } else if c == "ar-ae"@ {
        Some("العربية (الإمارات العربية المتحدة)"@)
    } else if c == "ar-bh"@ {
        Some("العربية (البحرين)"@)
    } else if c == "ar-dj"@ {
        Some("العربية (جيبوتي)"@)
    } else if c == "ar-dz"@ {
        Some("العربية (الجزائر)"@)
    } else if c == "ar-eg"@ {
        Some("العربية (مصر)"@)
    } else if c == "ar-eh"@ {
        Some("العربية (الصحراء الغربية)"@)
    } else if c == "ar-er"@ {
        Some("العربية (إريتريا)"@)
    } else if c == "ar-il"@ {
        Some("العربية (إسرائيل)"@)
    } else if c == "ar-iq"@ {
        Some("العربية (العراق)"@)
    } else if c == "ar-jo"@ {
        Some("العربية (الأردن)"@)
    } else if c == "ar-km"@ {
        Some("العربية (جزر القمر)"@)
    } else if c == "ar-kw"@ {
        Some("العربية (الكويت)"@)
    } else if c == "ar-lb"@ {
        Some("العربية (لبنان)"@)
    } else if c == "ar-ly"@ {
        Some("العربية (ليبيا)"@)
    } else if c == "ar-ma"@ {
        Some("العربية (المغرب)"@)
    } else if c == "ar-mr"@ {
        Some("العربية (موريتانيا)"@)
    } else if c == "ar-om"@ {
        Some("العربية (عمان)"@)
    } else if c == "ar-ps"@ {
        Some("العربية (فلسطين)"@)
    } else if c == "ar-qa"@ {
        Some("العربية (قطر)"@)
    } else if c == "ar-sa"@ {
        Some("العربية (المملكة العربية السعودية)"@)
    } else if c == "ar-sd"@ {
        Some("العربية (السودان)"@)
    } else if c == "ar-so"@ {
        Some("العربية (الصومال)"@)
    } else if c == "ar-ss"@ {
        Some("العربية (جنوب السودان)"@)
    } else if c == "ar-sy"@ {
        Some("العربية (سوريا)"@)
    } else if c == "ar-td"@ {
        Some("العربية (تشاد)"@)
    } else if c == "ar-tn"@ {
        Some("العربية (تونس)"@)
    } else if c == "ar-ye"@ {
        Some("العربية (اليمن)"@)
    } else if c == "as-in"@ {
        Some("অসমীয়া (ভাৰত)"@)
    } else if c == "az-az"@ {
        Some("Azərbaycan dili (Azərbaycan)"@)
    } else if c == "ba-ru"@ {
        Some("башҡорт теле (Россия)"@)
    } else if c == "be-by"@ {
        Some("Беларуская мова (Беларусь)"@)
    } else if c == "bg-bg"@ {
        Some("български език (България)"@)
    } else if c == "bm-ml"@ {
        Some("ߓߊߡߊߣߊߣߞߊߣ (ߞߊ߲ߞߊ߲)"@)
    } else if c == "bn-bd"@ {
        Some("বাংলা (বাংলাদেশ)"@)
    } else if c == "bn-in"@ {
        Some("বাংলা (ভারত)"@)
    } else if c == "bo-cn"@ {
        Some("བོད་སྐད་ (ཀྲུང་ཧྭ)"@)
    } else if c == "bo-in"@ {
        Some("བོད་སྐད་ (ཀྲུང་ཧྭ)"@)
    } else if c == "br-fr"@ {
        Some("Brezhoneg (Frañs)"@)
    } else if c == "bs-ba"@ {
        Some("Bosanski (Bosna i Hercegovina)"@)
    } else if c == "ca-ad"@ {
        Some("Català (Andorra)"@)
    } else if c == "ca-es"@ {
        Some("Català (Espanya)"@)
    } else if c == "ca-fr"@ {
        Some("Català (França)"@)
    } else if c == "ca-it"@ {
        Some("Català (Itàlia)"@)
    } else if c == "ce-ru"@ {
        Some("нохчийн мотт (Росси)"@)
    } else if c == "co-fr"@ {
        Some("Corsu (France)"@)
    } else if c == "cs-cz"@ {
        Some("Čeština (Česká republika)"@)
    } else if c == "cv-ru"@ {
        Some("чӑваш чӗлхи (Росси)"@)
    } else if c == "cy-gb"@ {
        Some("Cymraeg (Y Deyrnas Unedig)"@)
    } else if c == "da-dk"@ {
        Some("Dansk (Danmark)"@)
    } else if c == "da-gl"@ {
        Some("Dansk (Grønland)"@)
    } else if c == "de-at"@ {
        Some("Deutsch (Österreich)"@)
    } else if c == "de-be"@ {
        Some("Deutsch (Belgien)"@)
    } else if c == "de-ch"@ {
        Some("Deutsch (Schweiz)"@)
    } else if c == "de-de"@ {
        Some("Deutsch (Deutschland)"@)
    } else if c == "de-it"@ {
        Some("Deutsch (Italien)"@)
    } else if c == "de-li"@ {
        Some("Deutsch (Liechtenstein)"@)
    } else {
        None
    }
}

fn country_language_name_part_0(c: &[char]) -> (r: Option<&'static str>)
    ensures
        match r {
            Some(n) => country_language_name_0(c@) == Some(n@),
            None => country_language_name_0(c@) is None,
        },
{
    if chars_are(c, "af-na") {
        return Some("Afrikaans (Namibia)");
    }
    if chars_are(c, "af-za") {
        return Some("Afrikaans (South Africa)");
    }
    if chars_are(c, "ak-gh") {
        return Some("Akan (Ghana)");
    }
    if chars_are(c, "am-et") {
        return Some("አማርኛ (ኢትዮጵያ)");
    }
    if chars_are(c, "ar-ae") {
        return Some("العربية (الإمارات العربية المتحدة)");
    }
    if chars_are(c, "ar-bh") {
        return Some("العربية (البحرين)");
    }
    if chars_are(c, "ar-dj") {
        return Some("العربية (جيبوتي)");
    }
    if chars_are(c, "ar-dz") {
        return Some("العربية (الجزائر)");
    }
    if chars_are(c, "ar-eg") {
        return Some("العربية (مصر)");
    }
    if chars_are(c, "ar-eh") {
        return Some("العربية (الصحراء الغربية)");
    }
    if chars_are(c, "ar-er") {
        return Some("العربية (إريتريا)");
    }
    if chars_are(c, "ar-il") {
        return Some("العربية (إسرائيل)");
    }
    if chars_are(c, "ar-iq") {
        return Some("العربية (العراق)");
    }
    if chars_are(c, "ar-jo") {
        return Some("العربية (الأردن)");
    }
    if chars_are(c, "ar-km") {
        return Some("العربية (جزر القمر)");
    }
    if chars_are(c, "ar-kw") {
        return Some("العربية (الكويت)");
    }
    if chars_are(c, "ar-lb") {
        return Some("العربية (لبنان)");
    }
    if chars_are(c, "ar-ly") {
        return Some("العربية (ليبيا)");
    }
    if chars_are(c, "ar-ma") {
        return Some("العربية (المغرب)");
    }
    if chars_are(c, "ar-mr") {
        return Some("العربية (موريتانيا)");
    }
    if chars_are(c, "ar-om") {
        return Some("العربية (عمان)");
    }
    if chars_are(c, "ar-ps") {
        return Some("العربية (فلسطين)");
    }
    if chars_are(c, "ar-qa") {
        return Some("العربية (قطر)");
    }
    if chars_are(c, "ar-sa") {
        return Some("العربية (المملكة العربية السعودية)");
    }
    if chars_are(c, "ar-sd") {
        return Some("العربية (السودان)");
    }
    if chars_are(c, "ar-so") {
        return Some("العربية (الصومال)");
    }
    if chars_are(c, "ar-ss") {
        return Some("العربية (جنوب السودان)");
    }
    if chars_are(c, "ar-sy") {
        return Some("العربية (سوريا)");
    }
    if chars_are(c, "ar-td") {
        return Some("العربية (تشاد)");
    }
    if chars_are(c, "ar-tn") {
        return Some("العربية (تونس)");
    }
    if chars_are(c, "ar-ye") {
        return Some("العربية (اليمن)");
    }
    if chars_are(c, "as-in") {
        return Some("অসমীয়া (ভাৰত)");
    }
    if chars_are(c, "az-az") {
        return Some("Azərbaycan dili (Azərbaycan)");
    }
    if chars_are(c, "ba-ru") {
        return Some("башҡорт теле (Россия)");
    }
    if chars_are(c, "be-by") {
        return Some("Беларуская мова (Беларусь)");
    }
    if chars_are(c, "bg-bg") {
        return Some("български език (България)");
    }
    if chars_are(c, "bm-ml") {
        return Some("ߓߊߡߊߣߊߣߞߊߣ (ߞߊ߲ߞߊ߲)");
    }
    if chars_are(c, "bn-bd") {
        return Some("বাংলা (বাংলাদেশ)");
    }
    if chars_are(c, "bn-in") {
        return Some("বাংলা (ভারত)");
    }
    if chars_are(c, "bo-cn") {
        return Some("བོད་སྐད་ (ཀྲུང་ཧྭ)");
    }
    if chars_are(c, "bo-in") {
        return Some("བོད་སྐད་ (ཀྲུང་ཧྭ)");
    }
    if chars_are(c, "br-fr") {
        return Some("Brezhoneg (Frañs)");
    }
    if chars_are(c, "bs-ba") {
        return Some("Bosanski (Bosna i Hercegovina)");
    }
    if chars_are(c, "ca-ad") {
        return Some("Català (Andorra)");
    }
    if chars_are(c, "ca-es") {
        return Some("Català (Espanya)");
    }
    if chars_are(c, "ca-fr") {
        return Some("Català (França)");
    }
    if chars_are(c, "ca-it") {
        return Some("Català (Itàlia)");
    }
    if chars_are(c, "ce-ru") {
        return Some("нохчийн мотт (Росси)");
    }
    if chars_are(c, "co-fr") {
        return Some("Corsu (France)");
    }
    if chars_are(c, "cs-cz") {
        return Some("Čeština (Česká republika)");
    }
    if chars_are(c, "cv-ru") {
        return Some("чӑваш чӗлхи (Росси)");
    }
    if chars_are(c, "cy-gb") {
        return Some("Cymraeg (Y Deyrnas Unedig)");
    }
    if chars_are(c, "da-dk") {
        return Some("Dansk (Danmark)");
    }
    if chars_are(c, "da-gl") {
        return Some("Dansk (Grønland)");
    }
    if chars_are(c, "de-at") {
        return Some("Deutsch (Österreich)");
    }
    if chars_are(c, "de-be") {
        return Some("Deutsch (Belgien)");
    }
    if chars_are(c, "de-ch") {
        return Some("Deutsch (Schweiz)");
    }
    if chars_are(c, "de-de") {
        return Some("Deutsch (Deutschland)");
    }
    if chars_are(c, "de-it") {
        return Some("Deutsch (Italien)");
    }
    if chars_are(c, "de-li") {
        return Some("Deutsch (Liechtenstein)");
    }
    None
}

/// The name of a language as spoken in a country, by lowercase `lang-country` code (part 2 of 18).
pub open spec fn country_language_name_1(c: Seq<char>) -> Option<Seq<char>> {
    if c == "de-lu"@ {
        Some("Deutsch (Luxemburg)"@)
    } else if c == "dv-mv"@ {
        Some("ދިވެހި (ދިވެހި)"@)
    } else if c == "dz-bt"@ {
        Some("རྫོང་ཁ་ (འབྲུག་ཡུལ)"@)
    } else if c == "ee-gh"@ {
        Some("Eʋegbe (Ghana)"@)
    } else if c == "ee-tg"@ {
        Some("Eʋegbe (Togo)"@)
    } else if c == "el-cy"@ {
        Some("Νέα Ελληνικά (Κύπρος)"@)
    } else if c == "el-gr"@ {
        Some("Νέα Ελληνικά (Ελλάδα)"@)
    } else if c == "en-ad"@ {
        Some("English (Andorra)"@)
    } else if c == "en-ae"@ {
        Some("English (United Arab Emirates)"@)
    } else if c == "en-ag"@ {
        Some("English (Antigua and Barbuda)"@)
    } else if c == "en-ai"@ {
        Some("English (Anguilla)"@)
    } else if c == "en-al"@ {
        Some("English (Albania)"@)
    } else if c == "en-ar"@ {
        Some("English (Argentina)"@)
    } else if c == "en-as"@ {
        Some("English (American Samoa)"@)
    } else if c == "en-at"@ {
        Some("English (Austria)"@)
    } else if c == "en-au"@ {
        Some("English (Australia)"@)
    } else if c == "en-ba"@ {
        Some("English (Bosnia and Herzegovina)"@)
    } else if c == "en-bb"@ {
        Some("English (Barbados)"@)
    } else if c == "en-bd"@ {
        Some("English (Bangladesh)"@)
    } else if c == "en-be"@ {
        Some("English (Belgium)"@)
    } else if c == "en-bg"@ {
        Some("English (Bulgaria)"@)
    } else if c == "en-bi"@ {
        Some("English (Burundi)"@)
    } else if c == "en-bm"@ {
        Some("English (Bermuda)"@)
    } else if c == "en-br"@ {
        Some("English (Brazil)"@)
    } else if c == "en-bs"@ {
        Some("English (Bahamas)"@)
    } else if c == "en-bw"@ {
        Some("English (Botswana)"@)
    } else if c == "en-bz"@ {
        Some("English (Belize)"@)
    } else if c == "en-ca"@ {
        Some("English (Canada)"@)
    } else if c == "en-cc"@ {
        Some("English (Cocos Islands)"@)
    } else if c == "en-ch"@ {
        Some("English (Switzerland)"@)
    } else if c == "en-ck"@ {
        Some("English (Cook Islands)"@)
    } else if c == "en-cl"@ {
        Some("English (Chile)"@)
    } else if c == "en-cm"@ {
        Some("English (Cameroon)"@)
    } else if c == "en-cn"@ {
        Some("English (China)"@)
    } else if c == "en-co"@ {
        Some("English (Colombia)"@)
    } else if c == "en-cx"@ {
        Some("English (Christmas Island)"@)
    } else if c == "en-cy"@ {
        Some("English (Cyprus)"@)
    } else if c == "en-cz"@ {
        Some("English (Czech Republic)"@)
    } else if c == "en-de"@ {
        Some("English (Germany)"@)
    } else if c == "en-dg"@ {
        Some("English (Diego Garcia)"@)
    } else if c == "en-dk"@ {
        Some("English (Denmark)"@)
    } else if c == "en-dm"@ {
        Some("English (Dominica)"@)
    } else if c == "en-ee"@ {
        Some("English (Estonia)"@)
    } else if c == "en-er"@ {
        Some("English (Eritrea)"@)
    } else if c == "en-es"@ {
        Some("English (Spain)"@)
    } else if c == "en-fi"@ {
        Some("English (Finland)"@)
    } else if c == "en-fj"@ {
        Some("English (Fiji)"@)
    } else if c == "en-fk"@ {
        Some("English (Falkland Islands)"@)
    } else if c == "en-fm"@ {
        Some("English (Micronesia)"@)
    } else if c == "en-fr"@ {
        Some("English (France)"@)
    } else if c == "en-gb"@ {
        Some("English (United Kingdom)"@)
    } else if c == "en-gd"@ {
        Some("English (Grenada)"@)
    } else if c == "en-gg"@ {
        Some("English (Guernsey)"@)
    } else if c == "en-gh"@ {
        Some("English (Ghana)"@)
    } else if c == "en-gi"@ {
        Some("English (Gibraltar)"@)
    } else if c == "en-gm"@ {
        Some("English (Gambia)"@)
    } else if c == "en-gr"@ {
        Some("English (Greece)"@)
    } else if c == "en-gu"@ {
        Some("English (Guam)"@)
    } else if c == "en-gy"@ {
        Some("English (Guyana)"@)
    } else if c == "en-hk"@ {
        Some("English (Hong Kong)"@)
    } else {
        None
    }
}

fn country_language_name_part_1(c: &[char]) -> (r: Option<&'static str>)
    ensures
        match r {
            Some(n) => country_language_name_1(c@) == Some(n@),
            None => country_language_name_1(c@) is None,
        },
{
    if chars_are(c, "de-lu") {
        return Some("Deutsch (Luxemburg)");
    }
    if chars_are(c, "dv-mv") {
        return Some("ދިވެހި (ދިވެހި)");
    }
    if chars_are(c, "dz-bt") {
        return Some("རྫོང་ཁ་ (འབྲུག་ཡུལ)");
    }
    if chars_are(c, "ee-gh") {
        return Some("Eʋegbe (Ghana)");
    }
    if chars_are(c, "ee-tg") {
        return Some("Eʋegbe (Togo)");
    }
    if chars_are(c, "el-cy") {
        return Some("Νέα Ελληνικά (Κύπρος)");
    }
    if chars_are(c, "el-gr") {
        return Some("Νέα Ελληνικά (Ελλάδα)");
    }
    if chars_are(c, "en-ad") {
        return Some("English (Andorra)");
    }
    if chars_are(c, "en-ae") {
        return Some("English (United Arab Emirates)");
    }
    if chars_are(c, "en-ag") {
        return Some("English (Antigua and Barbuda)");
    }
    if chars_are(c, "en-ai") {
        return Some("English (Anguilla)");
    }
    if chars_are(c, "en-al") {
        return Some("English (Albania)");
    }
    if chars_are(c, "en-ar") {
        return Some("English (Argentina)");
    }
    if chars_are(c, "en-as") {
        return Some("English (American Samoa)");
    }
    if chars_are(c, "en-at") {
        return Some("English (Austria)");
    }
    if chars_are(c, "en-au") {
        return Some("English (Australia)");
    }
    if chars_are(c, "en-ba") {
        return Some("English (Bosnia and Herzegovina)");
    }
    if chars_are(c, "en-bb") {
        return Some("English (Barbados)");
    }
    if chars_are(c, "en-bd") {
        return Some("English (Bangladesh)");
    }
    if chars_are(c, "en-be") {
        return Some("English (Belgium)");
    }
    if chars_are(c, "en-bg") {
        return Some("English (Bulgaria)");
    }
    if chars_are(c, "en-bi") {
        return Some("English (Burundi)");
    }
    if chars_are(c, "en-bm") {
        return Some("English (Bermuda)");
    }
    if chars_are(c, "en-br") {
        return Some("English (Brazil)");
    }
    if chars_are(c, "en-bs") {
        return Some("English (Bahamas)");
    }
    if chars_are(c, "en-bw") {
        return Some("English (Botswana)");
    }
    if chars_are(c, "en-bz") {
        return Some("English (Belize)");
    }
    if chars_are(c, "en-ca") {
        return Some("English (Canada)");
    }
    if chars_are(c, "en-cc") {
        return Some("English (Cocos Islands)");
    }
    if chars_are(c, "en-ch") {
        return Some("English (Switzerland)");
    }
    if chars_are(c, "en-ck") {
        return Some("English (Cook Islands)");
    }
    if chars_are(c, "en-cl") {
        return Some("English (Chile)");
    }
    if chars_are(c, "en-cm") {
        return Some("English (Cameroon)");
    }
    if chars_are(c, "en-cn") {
        return Some("English (China)");
    }
    if chars_are(c, "en-co") {
        return Some("English (Colombia)");
    }
    if chars_are(c, "en-cx") {
        return Some("English (Christmas Island)");
    }
    if chars_are(c, "en-cy") {
        return Some("English (Cyprus)");
    }
    if chars_are(c, "en-cz") {
        return Some("English (Czech Republic)");
    }
    if chars_are(c, "en-de") {
        return Some("English (Germany)");
    }
    if chars_are(c, "en-dg") {
        return Some("English (Diego Garcia)");
    }
    if chars_are(c, "en-dk") {
        return Some("English (Denmark)");
    }
    if chars_are(c, "en-dm") {
        return Some("English (Dominica)");
    }
    if chars_are(c, "en-ee") {
        return Some("English (Estonia)");
    }
    if chars_are(c, "en-er") {
        return Some("English (Eritrea)");
    }
    if chars_are(c, "en-es") {
        return Some("English (Spain)");
    }
    if chars_are(c, "en-fi") {
        return Some("English (Finland)");
    }
    if chars_are(c, "en-fj") {
        return Some("English (Fiji)");
    }
    if chars_are(c, "en-fk") {
        return Some("English (Falkland Islands)");
    }
    if chars_are(c, "en-fm") {
        return Some("English (Micronesia)");
    }
    if chars_are(c, "en-fr") {
        return Some("English (France)");
    }
    if chars_are(c, "en-gb") {
        return Some("English (United Kingdom)");
    }
    if chars_are(c, "en-gd") {
        return Some("English (Grenada)");
    }
    if chars_are(c, "en-gg") {
        return Some("English (Guernsey)");
    }
    if chars_are(c, "en-gh") {
        return Some("English (Ghana)");
    }
    if chars_are(c, "en-gi") {
        return Some("English (Gibraltar)");
    }
    if chars_are(c, "en-gm") {
        return Some("English (Gambia)");
    }
    if chars_are(c, "en-gr") {
        return Some("English (Greece)");
    }
    if chars_are(c, "en-gu") {
        return Some("English (Guam)");
    }
    if chars_are(c, "en-gy") {
        return Some("English (Guyana)");
    }
    if chars_are(c, "en-hk") {
        return Some("English (Hong Kong)");
    }
    None
}

/// The name of a language as spoken in a country, by lowercase `lang-country` code (part 3 of 18).
pub open spec fn country_language_name_2(c: Seq<char>) -> Option<Seq<char>> {
    if c == "en-hu"@ {
        Some("English (Hungary)"@)
    } else if c == "en-hr"@ {
        Some("English (Croatia)"@)
    } else if c == "en-id"@ {
        Some("English (Indonesia)"@)
    } else if c == "en-ie"@ {
        Some("English (Ireland)"@)
    } else if c == "en-il"@ {
        Some("English (Israel)"@)
    } else if c == "en-im"@ {
        Some("English (Isle of Man)"@)
    } else if c == "en-in"@ {
        Some("English (India)"@)
    } else if c == "en-io"@ {
        Some("English (British Indian Ocean Territory)"@)
    } else if c == "en-is"@ {
        Some("English (Iceland)"@)
    } else if c == "en-it"@ {
        Some("English (Italy)"@)
    } else if c == "en-je"@ {
        Some("English (Jersey)"@)
    } else if c == "en-jm"@ {
        Some("English (Jamaica)"@)
    } else if c == "en-jp"@ {
        Some("English (Japan)"@)
    } else if c == "en-ke"@ {
        Some("English (Kenya)"@)
    } else if c == "en-ki"@ {
        Some("English (Kiribati)"@)
    } else if c == "en-kn"@ {
        Some("English (Saint Kitts and Nevis)"@)
    } else if c == "en-kr"@ {
        Some("English (South Korea)"@)
    } else if c == "en-ky"@ {
        Some("English (Cayman Islands)"@)
    } else if c == "en-lc"@ {
        Some("English (Saint Lucia)"@)
    } else if c == "en-lr"@ {
        Some("English (Liberia)"@)
    } else if c == "en-ls"@ {
        Some("English (Lesotho)"@)
    } else if c == "en-lt"@ {
        Some("English (Lithuania)"@)
    } else if c == "en-lu"@ {
        Some("English (Luxembourg)"@)
    } else if c == "en-lv"@ {
        Some("English (Latvia)"@)
    } else if c == "en-me"@ {
        Some("English (Montenegro)"@)
    } else if c == "en-mh"@ {
        Some("English (Marshall Islands)"@)
    } else if c == "en-mg"@ {
        Some("English (Madagascar)"@)
    } else if c == "en-mm"@ {
        Some("English (Myanmar)"@)
    } else if c == "en-mp"@ {
        Some("English (Northern Mariana Islands)"@)
    } else if c == "en-mo"@ {
        Some("English (Macao)"@)
    } else if c == "en-ms"@ {
        Some("English (Montserrat)"@)
    } else if c == "en-mt"@ {
        Some("English (Malta)"@)
    } else if c == "en-mu"@ {
        Some("English (Mauritius)"@)
    } else if c == "en-mv"@ {
        Some("English (Maldives)"@)
    } else if c == "en-mw"@ {
        Some("English (Malawi)"@)
    } else if c == "en-mx"@ {
        Some("English (Mexico)"@)
    } else if c == "en-my"@ {
        Some("English (Malaysia)"@)
    } else if c == "en-na"@ {
        Some("English (Namibia)"@)
    } else if c == "en-nf"@ {
        Some("English (Norfolk Island)"@)
    } else if c == "en-ng"@ {
        Some("English (Nigeria)"@)
    } else if c == "en-nl"@ {
        Some("English (Netherlands)"@)
    } else if c == "en-no"@ {
        Some("English (Norway)"@)
    } else if c == "en-nr"@ {
        Some("English (Nauru)"@)
    } else if c == "en-nu"@ {
        Some("English (Niue)"@)
    } else if c == "en-nz"@ {
        Some("English (New Zealand)"@)
    } else if c == "en-pg"@ {
        Some("English (Papua New Guinea)"@)
    } else if c == "en-ph"@ {
        Some("English (Philippines)"@)
    } else if c == "en-pk"@ {
        Some("English (Pakistan)"@)
    } else if c == "en-pl"@ {
        Some("English (Poland)"@)
    } else if c == "en-pn"@ {
        Some("English (Pitcairn Islands)"@)
    } else if c == "en-pr"@ {
        Some("English (Puerto Rico)"@)
    } else if c == "en-pt"@ {
        Some("English (Portugal)"@)
    } else if c == "en-pw"@ {
        Some("English (Palau)"@)
    } else if c == "en-ro"@ {
        Some("English (Romania)"@)
    } else if c == "en-rs"@ {
        Some("English (Serbia)"@)
    } else if c == "en-ru"@ {
        Some("English (Russia)"@)
    } else if c == "en-rw"@ {
        Some("English (Rwanda)"@)
    } else if c == "en-sa"@ {
        Some("English (Saudi Arabia)"@)
    } else if c == "en-sb"@ {
        Some("English (Solomon Islands)"@)
    } else if c == "en-sc"@ {
        Some("English (Seychelles)"@)
    } else {
        None
    }
}

fn country_language_name_part_2(c: &[char]) -> (r: Option<&'static str>)
    ensures
        match r {
            Some(n) => country_language_name_2(c@) == Some(n@),
            None => country_language_name_2(c@) is None,
        },
{
    if chars_are(c, "en-hu") {
        return Some("English (Hungary)");
    }
    if chars_are(c, "en-hr") {
        return Some("English (Croatia)");
    }
    if chars_are(c, "en-id") {
        return Some("English (Indonesia)");
    }
    if chars_are(c, "en-ie") {
        return Some("English (Ireland)");
    }
    if chars_are(c, "en-il") {
        return Some("English (Israel)");
    }
    if chars_are(c, "en-im") {
        return Some("English (Isle of Man)");
    }
    if chars_are(c, "en-in") {
        return Some("English (India)");
    }
    if chars_are(c, "en-io") {
        return Some("English (British Indian Ocean Territory)");
    }
    if chars_are(c, "en-is") {
        return Some("English (Iceland)");
    }
    if chars_are(c, "en-it") {
        return Some("English (Italy)");
    }
    if chars_are(c, "en-je") {
        return Some("English (Jersey)");
    }
    if chars_are(c, "en-jm") {
        return Some("English (Jamaica)");
    }
    if chars_are(c, "en-jp") {
        return Some("English (Japan)");
    }
    if chars_are(c, "en-ke") {
        return Some("English (Kenya)");
    }
    if chars_are(c, "en-ki") {
        return Some("English (Kiribati)");
    }
    if chars_are(c, "en-kn") {
        return Some("English (Saint Kitts and Nevis)");
    }
    if chars_are(c, "en-kr") {
        return Some("English (South Korea)");
    }
    if chars_are(c, "en-ky") {
        return Some("English (Cayman Islands)");
    }
    if chars_are(c, "en-lc") {
        return Some("English (Saint Lucia)");
    }
    if chars_are(c, "en-lr") {
        return Some("English (Liberia)");
    }
    if chars_are(c, "en-ls") {
        return Some("English (Lesotho)");
    }
    if chars_are(c, "en-lt") {
        return Some("English (Lithuania)");
    }
    if chars_are(c, "en-lu") {
        return Some("English (Luxembourg)");
    }
    if chars_are(c, "en-lv") {
        return Some("English (Latvia)");
    }
    if chars_are(c, "en-me") {
        return Some("English (Montenegro)");
    }
    if chars_are(c, "en-mh") {
        return Some("English (Marshall Islands)");
    }
    if chars_are(c, "en-mg") {
        return Some("English (Madagascar)");
    }
    if chars_are(c, "en-mm") {
        return Some("English (Myanmar)");
    }
    if chars_are(c, "en-mp") {
        return Some("English (Northern Mariana Islands)");
    }
    if chars_are(c, "en-mo") {
        return Some("English (Macao)");
    }
    if chars_are(c, "en-ms") {
        return Some("English (Montserrat)");
    }
    if chars_are(c, "en-mt") {
        return Some("English (Malta)");
    }
    if chars_are(c, "en-mu") {
        return Some("English (Mauritius)");
    }
    if chars_are(c, "en-mv") {
        return Some("English (Maldives)");
    }
    if chars_are(c, "en-mw") {
        return Some("English (Malawi)");
    }
    if chars_are(c, "en-mx") {
        return Some("English (Mexico)");
    }
    if chars_are(c, "en-my") {
        return Some("English (Malaysia)");
    }
    if chars_are(c, "en-na") {
        return Some("English (Namibia)");
    }
    if chars_are(c, "en-nf") {
        return Some("English (Norfolk Island)");
    }
    if chars_are(c, "en-ng") {
        return Some("English (Nigeria)");
    }
    if chars_are(c, "en-nl") {
        return Some("English (Netherlands)");
    }
    if chars_are(c, "en-no") {
        return Some("English (Norway)");
    }
    if chars_are(c, "en-nr") {
        return Some("English (Nauru)");
    }
    if chars_are(c, "en-nu") {
        return Some("English (Niue)");
    }
    if chars_are(c, "en-nz") {
        return Some("English (New Zealand)");
    }
    if chars_are(c, "en-pg") {
        return Some("English (Papua New Guinea)");
    }
    if chars_are(c, "en-ph") {
        return Some("English (Philippines)");
    }
    if chars_are(c, "en-pk") {
        return Some("English (Pakistan)");
    }
    if chars_are(c, "en-pl") {
        return Some("English (Poland)");
    }
    if chars_are(c, "en-pn") {
        return Some("English (Pitcairn Islands)");
    }
    if chars_are(c, "en-pr") {
        return Some("English (Puerto Rico)");
    }
    if chars_are(c, "en-pt") {
        return Some("English (Portugal)");
    }
    if chars_are(c, "en-pw") {
        return Some("English (Palau)");
    }
    if chars_are(c, "en-ro") {
        return Some("English (Romania)");
    }
    if chars_are(c, "en-rs") {
        return Some("English (Serbia)");
    }
    if chars_are(c, "en-ru") {
        return Some("English (Russia)");
    }
    if chars_are(c, "en-rw") {
        return Some("English (Rwanda)");
    }
    if chars_are(c, "en-sa") {
        return Some("English (Saudi Arabia)");
    }
    if chars_are(c, "en-sb") {
        return Some("English (Solomon Islands)");
    }
    if chars_are(c, "en-sc") {
        return Some("English (Seychelles)");
    }
    None
}

/// The name of a language as spoken in a country, by lowercase `lang-country` code (part 4 of 18).
pub open spec fn country_language_name_3(c: Seq<char>) -> Option<Seq<char>> {
    if c == "en-sd"@ {
        Some("English (Sudan)"@)
    } else if c == "en-se"@ {
        Some("English (Sweden)"@)
    } else if c == "en-sg"@ {
        Some("English (Singapore)"@)
    } else if c == "en-sh"@ {
        Some("English (Saint Helena)"@)
    } else if c == "en-si"@ {
        Some("English (Slovenia)"@)
    } else if c == "en-sk"@ {
        Some("English (Slovakia)"@)
    } else if c == "en-sl"@ {
        Some("English (Sierra Leone)"@)
    } else if c == "en-ss"@ {
        Some("English (South Sudan)"@)
    } else if c == "en-sx"@ {
        Some("English (Sint Maarten)"@)
    } else if c == "en-sz"@ {
        Some("English (Swaziland)"@)
    } else if c == "en-tc"@ {
        Some("English (Turks and Caicos Islands)"@)
    } else if c == "en-th"@ {
        Some("English (Thailand)"@)
    } else if c == "en-tk"@ {
        Some("English (Tokelau)"@)
    } else if c == "en-to"@ {
        Some("English (Tonga)"@)
    } else if c == "en-tr"@ {
        Some("English (Turkey)"@)
    } else if c == "en-tt"@ {
        Some("English (Trinidad and Tobago)"@)
    } else if c == "en-tv"@ {
        Some("English (Tuvalu)"@)
    } else if c == "en-tw"@ {
        Some("English (Taiwan)"@)
    } else if c == "en-tz"@ {
        Some("English (Tanzania)"@)
    } else if c == "en-ua"@ {
        Some("English (Ukraine)"@)
    } else if c == "en-ug"@ {
        Some("English (Uganda)"@)
    } else if c == "en-um"@ {
        Some("English (United States Minor Outlying Islands)"@)
    } else if c == "en-us"@ {
        Some("English (United States)"@)
    } else if c == "en-vc"@ {
        Some("English (Saint Vincent and the Grenadines)"@)
    } else if c == "en-vg"@ {
        Some("English (British Virgin Islands)"@)
    } else if c == "en-vi"@ {
        Some("English (U.S. Virgin Islands)"@)
    } else if c == "en-vu"@ {
        Some("English (Vanuatu)"@)
    } else if c == "en-ws"@ {
        Some("English (Samoa)"@)
    } else if c == "en-za"@ {
        Some("English (South Africa)"@)
    } else if c == "en-zm"@ {
        Some("English (Zambia)"@)
    } else if c == "en-zw"@ {
        Some("English (Zimbabwe)"@)
    } else if c == "es-ag"@ {
        Some("Español (Antigua y Barbuda)"@)
    } else if c == "es-ai"@ {
        Some("Español (Anguilla)"@)
    } else if c == "es-ar"@ {
        Some("Español (Argentina)"@)
    } else if c == "es-aw"@ {
        Some("Español (Aruba)"@)
    } else if c == "es-bb"@ {
        Some("Español (Barbados)"@)
    } else if c == "es-bl"@ {
        Some("Español (Saint Barthélemy)"@)
    } else if c == "es-bm"@ {
        Some("Español (Bermuda)"@)
    } else if c == "es-bo"@ {
        Some("Español (Bolivia)"@)
    } else if c == "es-bq"@ {
        Some("Español (Caribe holandés)"@)
    } else if c == "es-br"@ {
        Some("Español (Brasil)"@)
    } else if c == "es-bs"@ {
        Some("Español (Bahamas)"@)
    } else if c == "es-bz"@ {
        Some("Español (Belice)"@)
    } else if c == "es-ca"@ {
        Some("Español (Canadá)"@)
    } else if c == "es-cl"@ {
        Some("Español (Chile)"@)
    } else if c == "es-co"@ {
        Some("Español (Colombia)"@)
    } else if c == "es-cu"@ {
        Some("Español (Cuba)"@)
    } else if c == "es-cr"@ {
        Some("Español (Costa Rica)"@)
    } else if c == "es-cw"@ {
        Some("Español (Curaçao)"@)
    } else if c == "es-dm"@ {
        Some("Español (Dominica)"@)
    } else if c == "es-do"@ {
        Some("Español (República Dominicana)"@)
    } else if c == "es-ea"@ {
        Some("Español (Ceuta y Melilla)"@)
    } else if c == "es-fk"@ {
        Some("Español (Islas Malvinas)"@)
    } else if c == "es-gd"@ {
        Some("Español (Granada)"@)
    } else if c == "es-ec"@ {
        Some("Español (Ecuador)"@)
    } else if c == "es-es"@ {
        Some("Español (España)"@)
    } else if c == "es-gf"@ {
        Some("Español (Guayana francesa)"@)
    } else if c == "es-gl"@ {
        Some("Español (Groenlandia)"@)
    } else if c == "es-gp"@ {
        Some("Español (Guadalupe)"@)
    } else if c == "es-gq"@ {
        Some("Español (Guinea Ecuatorial)"@)
    } else {
        None
    }
}

fn country_language_name_part_3(c: &[char]) -> (r: Option<&'static str>)
    ensures
        match r {
            Some(n) => country_language_name_3(c@) == Some(n@),
            None => country_language_name_3(c@) is None,
        },
{
    if chars_are(c, "en-sd") {
        return Some("English (Sudan)");
    }
    if chars_are(c, "en-se") {
        return Some("English (Sweden)");
    }
    if chars_are(c, "en-sg") {
        return Some("English (Singapore)");
    }
    if chars_are(c, "en-sh") {
        return Some("English (Saint Helena)");
    }
    if chars_are(c, "en-si") {
        return Some("English (Slovenia)");
    }
    if chars_are(c, "en-sk") {
        return Some("English (Slovakia)");
    }
    if chars_are(c, "en-sl") {
        return Some("English (Sierra Leone)");
    }
    if chars_are(c, "en-ss") {
        return Some("English (South Sudan)");
    }
    if chars_are(c, "en-sx") {
        return Some("English (Sint Maarten)");
    }
    if chars_are(c, "en-sz") {
        return Some("English (Swaziland)");
    }
    if chars_are(c, "en-tc") {
        return Some("English (Turks and Caicos Islands)");
    }
    if chars_are(c, "en-th") {
        return Some("English (Thailand)");
    }
    if chars_are(c, "en-tk") {
        return Some("English (Tokelau)");
    }
    if chars_are(c, "en-to") {
        return Some("English (Tonga)");
    }
    if chars_are(c, "en-tr") {
        return Some("English (Turkey)");
    }
    if chars_are(c, "en-tt") {
        return Some("English (Trinidad and Tobago)");
    }
    if chars_are(c, "en-tv") {
        return Some("English (Tuvalu)");
    }
    if chars_are(c, "en-tw") {
        return Some("English (Taiwan)");
    }
    if chars_are(c, "en-tz") {
        return Some("English (Tanzania)");
    }
    if chars_are(c, "en-ua") {
        return Some("English (Ukraine)");
    }
    if chars_are(c, "en-ug") {
        return Some("English (Uganda)");
    }
    if chars_are(c, "en-um") {
        return Some("English (United States Minor Outlying Islands)");
    }
    if chars_are(c, "en-us") {
        return Some("English (United States)");
    }
    if chars_are(c, "en-vc") {
        return Some("English (Saint Vincent and the Grenadines)");
    }
    if chars_are(c, "en-vg") {
        return Some("English (British Virgin Islands)");
    }
    if chars_are(c, "en-vi") {
        return Some("English (U.S. Virgin Islands)");
    }
    if chars_are(c, "en-vu") {
        return Some("English (Vanuatu)");
    }
    if chars_are(c, "en-ws") {
        return Some("English (Samoa)");
    }
    if chars_are(c, "en-za") {
        return Some("English (South Africa)");
    }
    if chars_are(c, "en-zm") {
        return Some("English (Zambia)");
    }
    if chars_are(c, "en-zw") {
        return Some("English (Zimbabwe)");
    }
    if chars_are(c, "es-ag") {
        return Some("Español (Antigua y Barbuda)");
    }
    if chars_are(c, "es-ai") {
        return Some("Español (Anguilla)");
    }
    if chars_are(c, "es-ar") {
        return Some("Español (Argentina)");
    }
    if chars_are(c, "es-aw") {
        return Some("Español (Aruba)");
    }
    if chars_are(c, "es-bb") {
        return Some("Español (Barbados)");
    }
    if chars_are(c, "es-bl") {
        return Some("Español (Saint Barthélemy)");
    }
    if chars_are(c, "es-bm") {
        return Some("Español (Bermuda)");
    }
    if chars_are(c, "es-bo") {
        return Some("Español (Bolivia)");
    }
    if chars_are(c, "es-bq") {
        return Some("Español (Caribe holandés)");
    }
    if chars_are(c, "es-br") {
        return Some("Español (Brasil)");
    }
    if chars_are(c, "es-bs") {
        return Some("Español (Bahamas)");
    }
    if chars_are(c, "es-bz") {
        return Some("Español (Belice)");
    }
    if chars_are(c, "es-ca") {
        return Some("Español (Canadá)");
    }
    if chars_are(c, "es-cl") {
        return Some("Español (Chile)");
    }
    if chars_are(c, "es-co") {
        return Some("Español (Colombia)");
    }
    if chars_are(c, "es-cu") {
        return Some("Español (Cuba)");
    }
    if chars_are(c, "es-cr") {
        return Some("Español (Costa Rica)");
    }
    if chars_are(c, "es-cw") {
        return Some("Español (Curaçao)");
    }
    if chars_are(c, "es-dm") {
        return Some("Español (Dominica)");
    }
    if chars_are(c, "es-do") {
        return Some("Español (República Dominicana)");
    }
    if chars_are(c, "es-ea") {
        return Some("Español (Ceuta y Melilla)");
    }
    if chars_are(c, "es-fk") {
        return Some("Español (Islas Malvinas)");
    }
    if chars_are(c, "es-gd") {
        return Some("Español (Granada)");
    }
    if chars_are(c, "es-ec") {
        return Some("Español (Ecuador)");
    }
    if chars_are(c, "es-es") {
        return Some("Español (España)");
    }
    if chars_are(c, "es-gf") {
        return Some("Español (Guayana francesa)");
    }
    if chars_are(c, "es-gl") {
        return Some("Español (Groenlandia)");
    }
    if chars_are(c, "es-gp") {
        return Some("Español (Guadalupe)");
    }
    if chars_are(c, "es-gq") {
        return Some("Español (Guinea Ecuatorial)");
    }
    None
}

/// The name of a language as spoken in a country, by lowercase `lang-country` code (part 5 of 18).
pub open spec fn country_language_name_4(c: Seq<char>) -> Option<Seq<char>> {
    if c == "es-gt"@ {
        Some("Español (Guatemala)"@)
    } else if c == "es-gy"@ {
        Some("Español (Guayana)"@)
    } else if c == "es-hn"@ {
        Some("Español (Honduras)"@)
    } else if c == "es-ht"@ {
        Some("Español (Haití)"@)
    } else if c == "es-ic"@ {
        Some("Español (Islas Canarias)"@)
    } else if c == "es-kn"@ {
        Some("Español (San Cristóbal y Nieves)"@)
    } else if c == "es-ky"@ {
        Some("Español (Islas Caimán)"@)
    } else if c == "es-lc"@ {
        Some("Español (Santa Lucía)"@)
    } else if c == "es-mf"@ {
        Some("Español (San Martín)"@)
    } else if c == "es-mq"@ {
        Some("Español (Martinica)"@)
    } else if c == "es-ms"@ {
        Some("Español (Montserrat)"@)
    } else if c == "es-mx"@ {
        Some("Español (México)"@)
    } else if c == "es-ni"@ {
        Some("Español (Nicaragua)"@)
    } else if c == "es-pa"@ {
        Some("Español (Panamá)"@)
    } else if c == "es-pe"@ {
        Some("Español (Perú)"@)
    } else if c == "es-ph"@ {
        Some("Español (Filipinas)"@)
    } else if c == "es-pm"@ {
        Some("Español (San Pedro y Miquelón)"@)
    } else if c == "es-pr"@ {
        Some("Español (Puerto Rico)"@)
    } else if c == "es-py"@ {
        Some("Español (Paraguay)"@)
    } else if c == "es-sr"@ {
        Some("Español (Surinam)"@)
    } else if c == "es-sv"@ {
        Some("Español (El Salvador)"@)
    } else if c == "es-sx"@ {
        Some("Español (San Martín)"@)
    } else if c == "es-tc"@ {
        Some("Español (Islas Turcas y Caicos)"@)
    } else if c == "es-tt"@ {
        Some("Español (Trinidad y Tobago)"@)
    } else if c == "es-us"@ {
        Some("Español (Estados Unidos)"@)
    } else if c == "es-uy"@ {
        Some("Español (Uruguay)"@)
    } else if c == "es-vc"@ {
        Some("Español (San Vicente y las Granadinas)"@)
    } else if c == "es-ve"@ {
        Some("Español (Venezuela)"@)
    } else if c == "es-vg"@ {
        Some("Español (Islas Vírgenes Británicas)"@)
    } else if c == "es-vi"@ {
        Some("Español (Islas Vírgenes de los Estados Unidos)"@)
    } else if c == "et-ee"@ {
        Some("Eesti (Eesti)"@)
    } else if c == "eu-es"@ {
        Some("Euskara (Espainia)"@)
    } else if c == "fa-af"@ {
        Some("فارسی (افغانستان)"@)
    } else if c == "fa-ir"@ {
        Some("فارسی (ایران)"@)
    } else if c == "ff-bf"@ {
        Some("Fulfulde (Burkina Faso)"@)
    } else if c == "ff-cm"@ {
        Some("Fulfulde (Cameroun)"@)
    } else if c == "ff-gh"@ {
        Some("Fulfulde (Ghana)"@)
    } else if c == "ff-gm"@ {
        Some("Fulfulde (Gambia)"@)
    } else if c == "ff-gn"@ {
        Some("Fulfulde (Guinée)"@)
    } else if c == "ff-gw"@ {
        Some("Fulfulde (Guinée-Bissau)"@)
    } else if c == "ff-mr"@ {
        Some("Fulfulde (Mauritanie)"@)
    } else if c == "ff-ne"@ {
        Some("Fulfulde (Niger)"@)
    } else if c == "ff-ng"@ {
        Some("Fulfulde (Nigeria)"@)
    } else if c == "ff-lr"@ {
        Some("Fulfulde (Libéria)"@)
    } else if c == "ff-sl"@ {
        Some("Fulfulde (Sierra Leone)"@)
    } else if c == "ff-sn"@ {
        Some("Fulfulde (Sénégal)"@)
    } else if c == "fi-fi"@ {
        Some("suomi (Suomi)"@)
    } else if c == "fo-dk"@ {
        Some("Føroyskt (Danmark)"@)
    } else if c == "fo-fo"@ {
        Some("Føroyskt (Føroyar)"@)
    } else if c == "fr-be"@ {
        Some("Français (Belgique)"@)
    } else if c == "fr-bf"@ {
        Some("Français (Burkina Faso)"@)
    } else if c == "fr-bi"@ {
        Some("Français (Burundi)"@)
    } else if c == "fr-bj"@ {
        Some("Français (Bénin)"@)
    } else if c == "fr-bl"@ {
        Some("Français (Saint-Barthélemy)"@)
    } else if c == "fr-ca"@ {
        Some("Français (Canada)"@)
    } else if c == "fr-cd"@ {
        Some("Français (Congo)"@)
    } else if c == "fr-cf"@ {
        Some("Français (République centrafricaine)"@)
    } else if c == "fr-cg"@ {
        Some("Français (Congo)"@)
    } else if c == "fr-ch"@ {
        Some("Français (Suisse)"@)
    } else if c == "fr-ci"@ {
        Some("Français (Côte d'Ivoire)"@)
    } else {
        None
    }
}

fn country_language_name_part_4(c: &[char]) -> (r: Option<&'static str>)
    ensures
        match r {
            Some(n) => country_language_name_4(c@) == Some(n@),
            None => country_language_name_4(c@) is None,
        },
{
    if chars_are(c, "es-gt") {
        return Some("Español (Guatemala)");
    }
    if chars_are(c, "es-gy") {
        return Some("Español (Guayana)");
    }
    if chars_are(c, "es-hn") {
        return Some("Español (Honduras)");
    }
    if chars_are(c, "es-ht") {
        return Some("Español (Haití)");
    }
    if chars_are(c, "es-ic") {
        return Some("Español (Islas Canarias)");
    }
    if chars_are(c, "es-kn") {
        return Some("Español (San Cristóbal y Nieves)");
    }
    if chars_are(c, "es-ky") {
        return Some("Español (Islas Caimán)");
    }
    if chars_are(c, "es-lc") {
        return Some("Español (Santa Lucía)");
    }
    if chars_are(c, "es-mf") {
        return Some("Español (San Martín)");
    }
    if chars_are(c, "es-mq") {
        return Some("Español (Martinica)");
    }
    if chars_are(c, "es-ms") {
        return Some("Español (Montserrat)");
    }
    if chars_are(c, "es-mx") {
        return Some("Español (México)");
    }
    if chars_are(c, "es-ni") {
        return Some("Español (Nicaragua)");
    }
    if chars_are(c, "es-pa") {
        return Some("Español (Panamá)");
    }
    if chars_are(c, "es-pe") {
        return Some("Español (Perú)");
    }
    if chars_are(c, "es-ph") {
        return Some("Español (Filipinas)");
    }
    if chars_are(c, "es-pm") {
        return Some("Español (San Pedro y Miquelón)");
    }
    if chars_are(c, "es-pr") {
        return Some("Español (Puerto Rico)");
    }
    if chars_are(c, "es-py") {
        return Some("Español (Paraguay)");
    }
    if chars_are(c, "es-sr") {
        return Some("Español (Surinam)");
    }
    if chars_are(c, "es-sv") {
        return Some("Español (El Salvador)");
    }
    if chars_are(c, "es-sx") {
        return Some("Español (San Martín)");
    }
    if chars_are(c, "es-tc") {
        return Some("Español (Islas Turcas y Caicos)");
    }
    if chars_are(c, "es-tt") {
        return Some("Español (Trinidad y Tobago)");
    }
    if chars_are(c, "es-us") {
        return Some("Español (Estados Unidos)");
    }
    if chars_are(c, "es-uy") {
        return Some("Español (Uruguay)");
    }
    if chars_are(c, "es-vc") {
        return Some("Español (San Vicente y las Granadinas)");
    }
    if chars_are(c, "es-ve") {
        return Some("Español (Venezuela)");
    }
    if chars_are(c, "es-vg") {
        return Some("Español (Islas Vírgenes Británicas)");
    }
    if chars_are(c, "es-vi") {
        return Some("Español (Islas Vírgenes de los Estados Unidos)");
    }
    if chars_are(c, "et-ee") {
        return Some("Eesti (Eesti)");
    }
    if chars_are(c, "eu-es") {
        return Some("Euskara (Espainia)");
    }
    if chars_are(c, "fa-af") {
        return Some("فارسی (افغانستان)");
    }
    if chars_are(c, "fa-ir") {
        return Some("فارسی (ایران)");
    }
    if chars_are(c, "ff-bf") {
        return Some("Fulfulde (Burkina Faso)");
    }
    if chars_are(c, "ff-cm") {
        return Some("Fulfulde (Cameroun)");
    }
    if chars_are(c, "ff-gh") {
        return Some("Fulfulde (Ghana)");
    }
    if chars_are(c, "ff-gm") {
        return Some("Fulfulde (Gambia)");
    }
    if chars_are(c, "ff-gn") {
        return Some("Fulfulde (Guinée)");
    }
    if chars_are(c, "ff-gw") {
        return Some("Fulfulde (Guinée-Bissau)");
    }
    if chars_are(c, "ff-mr") {
        return Some("Fulfulde (Mauritanie)");
    }
    if chars_are(c, "ff-ne") {
        return Some("Fulfulde (Niger)");
    }
    if chars_are(c, "ff-ng") {
        return Some("Fulfulde (Nigeria)");
    }
    if chars_are(c, "ff-lr") {
        return Some("Fulfulde (Libéria)");
    }
    if chars_are(c, "ff-sl") {
        return Some("Fulfulde (Sierra Leone)");
    }
    if chars_are(c, "ff-sn") {
        return Some("Fulfulde (Sénégal)");
    }
    if chars_are(c, "fi-fi") {
        return Some("suomi (Suomi)");
    }
    if chars_are(c, "fo-dk") {
        return Some("Føroyskt (Danmark)");
    }
    if chars_are(c, "fo-fo") {
        return Some("Føroyskt (Føroyar)");
    }
    if chars_are(c, "fr-be") {
        return Some("Français (Belgique)");
    }
    if chars_are(c, "fr-bf") {
        return Some("Français (Burkina Faso)");
    }
    if chars_are(c, "fr-bi") {
        return Some("Français (Burundi)");
    }
    if chars_are(c, "fr-bj") {
        return Some("Français (Bénin)");
    }
    if chars_are(c, "fr-bl") {
        return Some("Français (Saint-Barthélemy)");
    }
    if chars_are(c, "fr-ca") {
        return Some("Français (Canada)");
    }
    if chars_are(c, "fr-cd") {
        return Some("Français (Congo)");
    }
    if chars_are(c, "fr-cf") {
        return Some("Français (République centrafricaine)");
    }
    if chars_are(c, "fr-cg") {
        return Some("Français (Congo)");
    }
    if chars_are(c, "fr-ch") {
        return Some("Français (Suisse)");
    }
    if chars_are(c, "fr-ci") {
        return Some("Français (Côte d'Ivoire)");
    }
    None
}

/// The name of a language as spoken in a country, by lowercase `lang-country` code (part 6 of 18).
pub open spec fn country_language_name_5(c: Seq<char>) -> Option<Seq<char>> {
    if c == "fr-cm"@ {
        Some("Français (Cameroun)"@)
    } else if c == "fr-dj"@ {
        Some("Français (Djibouti)"@)
    } else if c == "fr-dz"@ {
        Some("Français (Algérie)"@)
    } else if c == "fr-fr"@ {
        Some("Français (France)"@)
    } else if c == "fr-ga"@ {
        Some("Français (Gabon)"@)
    } else if c == "fr-gf"@ {
        Some("Français (Guyane française)"@)
    } else if c == "fr-gn"@ {
        Some("Français (Guinée)"@)
    } else if c == "fr-gp"@ {
        Some("Français (Guadeloupe)"@)
    } else if c == "fr-gq"@ {
        Some("Français (Guinée équatoriale)"@)
    } else if c == "fr-ht"@ {
        Some("Français (Haïti)"@)
    } else if c == "fr-km"@ {
        Some("Français (Comores)"@)
    } else if c == "fr-ma"@ {
        Some("Français (Maroc)"@)
    } else if c == "fr-mc"@ {
        Some("Français (Monaco)"@)
    } else if c == "fr-mf"@ {
        Some("Français (Saint-Martin)"@)
    } else if c == "fr-nc"@ {
        Some("Français (Nouvelle-Calédonie)"@)
    } else if c == "fr-ne"@ {
        Some("Français (Niger)"@)
    } else if c == "fr-lu"@ {
        Some("Français (Luxembourg)"@)
    } else if c == "fr-mg"@ {
        Some("Français (Madagascar)"@)
    } else if c == "fr-ml"@ {
        Some("Français (Mali)"@)
    } else if c == "fr-mq"@ {
        Some("Français (Martinique)"@)
    } else if c == "fr-mr"@ {
        Some("Français (Mauritanie)"@)
    } else if c == "fr-mu"@ {
        Some("Français (Maurice)"@)
    } else if c == "fr-pf"@ {
        Some("Français (Polynésie française)"@)
    } else if c == "fr-pm"@ {
        Some("Français (Saint-Pierre-et-Miquelon)"@)
    } else if c == "fr-re"@ {
        Some("Français (Réunion)"@)
    } else if c == "fr-rw"@ {
        Some("Français (Rwanda)"@)
    } else if c == "fr-sc"@ {
        Some("Français (Seychelles)"@)
    } else if c == "fr-sn"@ {
        Some("Français (Sénégal)"@)
    } else if c == "fr-sy"@ {
        Some("Français (Syrie)"@)
    } else if c == "fr-td"@ {
        Some("Français (Tchad)"@)
    } else if c == "fr-tg"@ {
        Some("Français (Togo)"@)
    } else if c == "fr-tn"@ {
        Some("Français (Tunisie)"@)
    } else if c == "fr-vu"@ {
        Some("Français (Vanuatu)"@)
    } else if c == "fr-wf"@ {
        Some("Français (Wallis-et-Futuna)"@)
    } else if c == "fr-yt"@ {
        Some("Français (Mayotte)"@)
    } else if c == "fy-nl"@ {
        Some("Frysk (Nederlân)"@)
    } else if c == "ga-ie"@ {
        Some("Gaeilge (Éire)"@)
    } else if c == "gd-gb"@ {
        Some("Gàidhlig (An Rìoghachd Aonaichte)"@)
    } else if c == "gl-es"@ {
        Some("Galego (España)"@)
    } else if c == "gn-py"@ {
        Some("Avañe'ẽ (Paraguái)"@)
    } else if c == "gu-in"@ {
        Some("ગુજરાતી (ભારત)"@)
    } else if c == "gv-im"@ {
        Some("Gaelg (Ellan Vannin)"@)
    } else if c == "ha-gh"@ {
        Some("Hausa (Ghana)"@)
    } else if c == "ha-ne"@ {
        Some("Hausa (Nijar)"@)
    } else if c == "ha-ng"@ {
        Some("Hausa (Najeriya)"@)
    } else if c == "he-il"@ {
        Some("עברית (ישראל)"@)
    } else if c == "hi-in"@ {
        Some("हिन्दी (भारत)"@)
    } else if c == "hr-ba"@ {
        Some("Hrvatski (Bosna i Hercegovina)"@)
    } else if c == "hr-hr"@ {
        Some("Hrvatski (Hrvatska)"@)
    } else if c == "hu-hu"@ {
        Some("Magyar (Magyarország)"@)
    } else if c == "hy-am"@ {
        Some("Հայերէն (Հայաստան)"@)
    } else if c == "id-id"@ {
        Some("Bahasa Indonesia (Indonesia)"@)
    } else if c == "ig-ng"@ {
        Some("Igbo (Nigeria)"@)
    } else if c == "ii-cn"@ {
        Some("ꆈꌠꉙ (中国)"@)
    } else if c == "is-is"@ {
        Some("Íslenska (Ísland)"@)
    } else if c == "it-ch"@ {
        Some("Italiano (Svizzera)"@)
    } else if c == "it-it"@ {
        Some("Italiano (Italia)"@)
    } else if c == "it-sm"@ {
        Some("Italiano (San Marino)"@)
    } else if c == "it-va"@ {
        Some("Italiano (Città del Vaticano)"@)
    } else if c == "iu-ca"@ {
        Some("ᐃᓄᒃᑎᑐᑦ (Canada)"@)
    } else {
        None
    }
}

fn country_language_name_part_5(c: &[char]) -> (r: Option<&'static str>)
    ensures
        match r {
            Some(n) => country_language_name_5(c@) == Some(n@),
            None => country_language_name_5(c@) is None,
        },
{
    if chars_are(c, "fr-cm") {
        return Some("Français (Cameroun)");
    }
    if chars_are(c, "fr-dj") {
        return Some("Français (Djibouti)");
    }
    if chars_are(c, "fr-dz") {
        return Some("Français (Algérie)");
    }
    if chars_are(c, "fr-fr") {
        return Some("Français (France)");
    }
    if chars_are(c, "fr-ga") {
        return Some("Français (Gabon)");
    }
    if chars_are(c, "fr-gf") {
        return Some("Français (Guyane française)");
    }
    if chars_are(c, "fr-gn") {
        return Some("Français (Guinée)");
    }
    if chars_are(c, "fr-gp") {
        return Some("Français (Guadeloupe)");
    }
    if chars_are(c, "fr-gq") {
        return Some("Français (Guinée équatoriale)");
    }
    if chars_are(c, "fr-ht") {
        return Some("Français (Haïti)");
    }
    if chars_are(c, "fr-km") {
        return Some("Français (Comores)");
    }
    if chars_are(c, "fr-ma") {
        return Some("Français (Maroc)");
    }
    if chars_are(c, "fr-mc") {
        return Some("Français (Monaco)");
    }
    if chars_are(c, "fr-mf") {
        return Some("Français (Saint-Martin)");
    }
    if chars_are(c, "fr-nc") {
        return Some("Français (Nouvelle-Calédonie)");
    }
    if chars_are(c, "fr-ne") {
        return Some("Français (Niger)");
    }
    if chars_are(c, "fr-lu") {
        return Some("Français (Luxembourg)");
    }
    if chars_are(c, "fr-mg") {
        return Some("Français (Madagascar)");
    }
    if chars_are(c, "fr-ml") {
        return Some("Français (Mali)");
    }
    if chars_are(c, "fr-mq") {
        return Some("Français (Martinique)");
    }
    if chars_are(c, "fr-mr") {
        return Some("Français (Mauritanie)");
    }
    if chars_are(c, "fr-mu") {
        return Some("Français (Maurice)");
    }
    if chars_are(c, "fr-pf") {
        return Some("Français (Polynésie française)");
    }
    if chars_are(c, "fr-pm") {
        return Some("Français (Saint-Pierre-et-Miquelon)");
    }
    if chars_are(c, "fr-re") {
        return Some("Français (Réunion)");
    }
    if chars_are(c, "fr-rw") {
        return Some("Français (Rwanda)");
    }
    if chars_are(c, "fr-sc") {
        return Some("Français (Seychelles)");
    }
    if chars_are(c, "fr-sn") {
        return Some("Français (Sénégal)");
    }
    if chars_are(c, "fr-sy") {
        return Some("Français (Syrie)");
    }
    if chars_are(c, "fr-td") {
        return Some("Français (Tchad)");
    }
    if chars_are(c, "fr-tg") {
        return Some("Français (Togo)");
    }
    if chars_are(c, "fr-tn") {
        return Some("Français (Tunisie)");
    }
    if chars_are(c, "fr-vu") {
        return Some("Français (Vanuatu)");
    }
    if chars_are(c, "fr-wf") {
        return Some("Français (Wallis-et-Futuna)");
    }
    if chars_are(c, "fr-yt") {
        return Some("Français (Mayotte)");
    }
    if chars_are(c, "fy-nl") {
        return Some("Frysk (Nederlân)");
    }
    if chars_are(c, "ga-ie") {
        return Some("Gaeilge (Éire)");
    }
    if chars_are(c, "gd-gb") {
        return Some("Gàidhlig (An Rìoghachd Aonaichte)");
    }
    if chars_are(c, "gl-es") {
        return Some("Galego (España)");
    }
    if chars_are(c, "gn-py") {
        return Some("Avañe'ẽ (Paraguái)");
    }
    if chars_are(c, "gu-in") {
        return Some("ગુજરાતી (ભારત)");
    }
    if chars_are(c, "gv-im") {
        return Some("Gaelg (Ellan Vannin)");
    }
    if chars_are(c, "ha-gh") {
        return Some("Hausa (Ghana)");
    }
    if chars_are(c, "ha-ne") {
        return Some("Hausa (Nijar)");
    }
    if chars_are(c, "ha-ng") {
        return Some("Hausa (Najeriya)");
    }
    if chars_are(c, "he-il") {
        return Some("עברית (ישראל)");
    }
    if chars_are(c, "hi-in") {
        return Some("हिन्दी (भारत)");
    }
    if chars_are(c, "hr-ba") {
        return Some("Hrvatski (Bosna i Hercegovina)");
    }
    if chars_are(c, "hr-hr") {
        return Some("Hrvatski (Hrvatska)");
    }
    if chars_are(c, "hu-hu") {
        return Some("Magyar (Magyarország)");
    }
    if chars_are(c, "hy-am") {
        return Some("Հայերէն (Հայաստան)");
    }
    if chars_are(c, "id-id") {
        return Some("Bahasa Indonesia (Indonesia)");
    }
    if chars_are(c, "ig-ng") {
        return Some("Igbo (Nigeria)");
    }
    if chars_are(c, "ii-cn") {
        return Some("ꆈꌠꉙ (中国)");
    }
    if chars_are(c, "is-is") {
        return Some("Íslenska (Ísland)");
    }
    if chars_are(c, "it-ch") {
        return Some("Italiano (Svizzera)");
    }
    if chars_are(c, "it-it") {
        return Some("Italiano (Italia)");
    }
    if chars_are(c, "it-sm") {
        return Some("Italiano (San Marino)");
    }
    if chars_are(c, "it-va") {
        return Some("Italiano (Città del Vaticano)");
    }
    if chars_are(c, "iu-ca") {
        return Some("ᐃᓄᒃᑎᑐᑦ (Canada)");
    }
    None
}

/// The name of a language as spoken in a country, by lowercase `lang-country` code (part 7 of 18).
pub open spec fn country_language_name_6(c: Seq<char>) -> Option<Seq<char>> {
    if c == "ja-jp"@ {
        Some("日本語 (日本)"@)
    } else if c == "jv-id"@ {
        Some("Basa Jawa (Indonesia)"@)
    } else if c == "ka-ge"@ {
        Some("ქართული (საქართველო)"@)
    } else if c == "ki-ke"@ {
        Some("Gĩkũyũ (Kenya)"@)
    } else if c == "kk-kz"@ {
        Some("Қазақ тілі (Қазақстан)"@)
    } else if c == "kl-gl"@ {
        Some("Kalaallisut (Kalaallit Nunaat)"@)
    } else if c == "km-kh"@ {
        Some("ភាសាខ្មែរ (កម្ពុជា)"@)
    } else if c == "kn-in"@ {
        Some("ಕನ್ನಡ (ಭಾರತ)"@)
    } else if c == "ko-kp"@ {
        Some("한국어(북한)"@)
    } else if c == "ks-in"@ {
        Some("कश्मीरी (भारत)"@)
    } else if c == "ku-tr"@ {
        Some("Kurdî (Tirkiye)"@)
    } else if c == "kw-gb"@ {
        Some("Cornish (United Kingdom)"@)
    } else if c == "ky-kg"@ {
        Some("Кыргызстандык (Кыргызстан)"@)
    } else if c == "lb-lu"@ {
        Some("Lëtzebuergesch (Lëtzebuerg)"@)
    } else if c == "lg-ug"@ {
        Some("Luganda (Yuganda)"@)
    } else if c == "ln-ao"@ {
        Some("Lingála (Angola)"@)
    } else if c == "ln-cf"@ {
        Some("Lingála (République centrafricaine)"@)
    } else if c == "ln-cg"@ {
        Some("Lingála (Congo)"@)
    } else if c == "lo-la"@ {
        Some("ພາສາລາວ (ລາວ)"@)
    } else if c == "lt-lt"@ {
        Some("Lietuvių kalba (Lietuva)"@)
    } else if c == "lu-cd"@ {
        Some("Kiluba (Congo)"@)
    } else if c == "lv-lv"@ {
        Some("Latviešu valoda (Latvija)"@)
    } else if c == "mg-mg"@ {
        Some("Malagasy (Madagascar)"@)
    } else if c == "mi-nz"@ {
        Some("Māori (Aotearoa)"@)
    } else if c == "mk-mk"@ {
        Some("Македонски (Македонија)"@)
    } else if c == "ml-in"@ {
        Some("മലയാളം (ഭാരതം)"@)
    } else if c == "mn-mn"@ {
        Some("Монгол хэл (Монгол)"@)
    } else if c == "mr-in"@ {
        Some("मराठी (भारत)"@)
    } else if c == "ms-bn"@ {
        Some("Bahasa Melayu (Brunei)"@)
    } else if c == "ms-my"@ {
        Some("Bahasa Melayu (Malaysia)"@)
    } else if c == "ms-sg"@ {
        Some("Bahasa Melayu (Singapura)"@)
    } else if c == "mt-mt"@ {
        Some("Malti (Malta)"@)
    } else if c == "my-mm"@ {
        Some("ဗမာစာ (မြန်မာ)"@)
    } else if c == "nb-no"@ {
        Some("Norsk bokmål (Norge)"@)
    } else if c == "nb-sj"@ {
        Some("Norsk bokmål (Svalbard og Jan Mayen)"@)
    } else if c == "nd-zw"@ {
        Some("isiNdebele (Zimbabwe)"@)
    } else if c == "ne-in"@ {
        Some("नेपाली (भारत)"@)
    } else if c == "ne-np"@ {
        Some("नेपाली (नेपाल)"@)
    } else if c == "nl-aw"@ {
        Some("Nederlands (Aruba)"@)
    } else if c == "nl-be"@ {
        Some("Nederlands (België)"@)
    } else if c == "nl-bq"@ {
        Some("Nederlands (Caribisch Nederland)"@)
    } else if c == "nl-cw"@ {
        Some("Nederlands (Curaçao)"@)
    } else if c == "nl-nl"@ {
        Some("Nederlands (Nederland)"@)
    } else if c == "nl-sr"@ {
        Some("Nederlands (Suriname)"@)
    } else if c == "nl-sx"@ {
        Some("Nederlands (Sint Maarten)"@)
    } else if c == "nn-no"@ {
        Some("Norsk nynorsk (Noreg)"@)
    } else if c == "nr-za"@ {
        Some("isiNdebele (South Africa)"@)
    } else if c == "ny-mw"@ {
        Some("Chichewa (Malawi)"@)
    } else if c == "oc-fr"@ {
        Some("Occitan (France)"@)
    } else if c == "os-ge"@ {
        Some("Ирон æвзаг (Росси)"@)
    } else if c == "om-et"@ {
        Some("Afaan Oromoo (Itoophiyaa)"@)
    } else if c == "om-ke"@ {
        Some("Afaan Oromoo (Keeniyaa)"@)
    } else if c == "or-in"@ {
        Some("ଓଡ଼ିଆ (ଭାରତ)"@)
    } else if c == "os-ru"@ {
        Some("Ирон æвзаг (Росси)"@)
    } else if c == "pa-in"@ {
        Some("ਪੰਜਾਬੀ (ਭਾਰਤ)"@)
    } else if c == "pa-pk"@ {
        Some("پنجابی (پاکستان)"@)
    } else if c == "pl-pl"@ {
        Some("Polski (Polska)"@)
    } else if c == "ps-af"@ {
        Some("پښتو (افغانستان)"@)
    } else if c == "ps-pk"@ {
        Some("پښتو (پاکستان)"@)
    } else if c == "pt-ao"@ {
        Some("Português (Angola)"@)
    } else {
        None
    }
}

fn country_language_name_part_6(c: &[char]) -> (r: Option<&'static str>)
    ensures
        match r {
            Some(n) => country_language_name_6(c@) == Some(n@),
            None => country_language_name_6(c@) is None,
        },
{
    if chars_are(c, "ja-jp") {
        return Some("日本語 (日本)");
    }
    if chars_are(c, "jv-id") {
        return Some("Basa Jawa (Indonesia)");
    }
    if chars_are(c, "ka-ge") {
        return Some("ქართული (საქართველო)");
    }
    if chars_are(c, "ki-ke") {
        return Some("Gĩkũyũ (Kenya)");
    }
    if chars_are(c, "kk-kz") {
        return Some("Қазақ тілі (Қазақстан)");
    }
    if chars_are(c, "kl-gl") {
        return Some("Kalaallisut (Kalaallit Nunaat)");
    }
    if chars_are(c, "km-kh") {
        return Some("ភាសាខ្មែរ (កម្ពុជា)");
    }
    if chars_are(c, "kn-in") {
        return Some("ಕನ್ನಡ (ಭಾರತ)");
    }
    if chars_are(c, "ko-kp") {
        return Some("한국어(북한)");
    }
    if chars_are(c, "ks-in") {
        return Some("कश्मीरी (भारत)");
    }
    if chars_are(c, "ku-tr") {
        return Some("Kurdî (Tirkiye)");
    }
    if chars_are(c, "kw-gb") {
        return Some("Cornish (United Kingdom)");
    }
    if chars_are(c, "ky-kg") {
        return Some("Кыргызстандык (Кыргызстан)");
    }
    if chars_are(c, "lb-lu") {
        return Some("Lëtzebuergesch (Lëtzebuerg)");
    }
    if chars_are(c, "lg-ug") {
        return Some("Luganda (Yuganda)");
    }
    if chars_are(c, "ln-ao") {
        return Some("Lingála (Angola)");
    }
    if chars_are(c, "ln-cf") {
        return Some("Lingála (République centrafricaine)");
    }
    if chars_are(c, "ln-cg") {
        return Some("Lingála (Congo)");
    }
    if chars_are(c, "lo-la") {
        return Some("ພາສາລາວ (ລາວ)");
    }
    if chars_are(c, "lt-lt") {
        return Some("Lietuvių kalba (Lietuva)");
    }
    if chars_are(c, "lu-cd") {
        return Some("Kiluba (Congo)");
    }
    if chars_are(c, "lv-lv") {
        return Some("Latviešu valoda (Latvija)");
    }
    if chars_are(c, "mg-mg") {
        return Some("Malagasy (Madagascar)");
    }
    if chars_are(c, "mi-nz") {
        return Some("Māori (Aotearoa)");
    }
    if chars_are(c, "mk-mk") {
        return Some("Македонски (Македонија)");
    }
    if chars_are(c, "ml-in") {
        return Some("മലയാളം (ഭാരതം)");
    }
    if chars_are(c, "mn-mn") {
        return Some("Монгол хэл (Монгол)");
    }
    if chars_are(c, "mr-in") {
        return Some("मराठी (भारत)");
    }
    if chars_are(c, "ms-bn") {
        return Some("Bahasa Melayu (Brunei)");
    }
    if chars_are(c, "ms-my") {
        return Some("Bahasa Melayu (Malaysia)");
    }
    if chars_are(c, "ms-sg") {
        return Some("Bahasa Melayu (Singapura)");
    }
    if chars_are(c, "mt-mt") {
        return Some("Malti (Malta)");
    }
    if chars_are(c, "my-mm") {
        return Some("ဗမာစာ (မြန်မာ)");
    }
    if chars_are(c, "nb-no") {
        return Some("Norsk bokmål (Norge)");
    }
    if chars_are(c, "nb-sj") {
        return Some("Norsk bokmål (Svalbard og Jan Mayen)");
    }
    if chars_are(c, "nd-zw") {
        return Some("isiNdebele (Zimbabwe)");
    }
    if chars_are(c, "ne-in") {
        return Some("नेपाली (भारत)");
    }
    if chars_are(c, "ne-np") {
        return Some("नेपाली (नेपाल)");
    }
    if chars_are(c, "nl-aw") {
        return Some("Nederlands (Aruba)");
    }
    if chars_are(c, "nl-be") {
        return Some("Nederlands (België)");
    }
    if chars_are(c, "nl-bq") {
        return Some("Nederlands (Caribisch Nederland)");
    }
    if chars_are(c, "nl-cw") {
        return Some("Nederlands (Curaçao)");
    }
    if chars_are(c, "nl-nl") {
        return Some("Nederlands (Nederland)");
    }
    if chars_are(c, "nl-sr") {
        return Some("Nederlands (Suriname)");
    }
    if chars_are(c, "nl-sx") {
        return Some("Nederlands (Sint Maarten)");
    }
    if chars_are(c, "nn-no") {
        return Some("Norsk nynorsk (Noreg)");
    }
    if chars_are(c, "nr-za") {
        return Some("isiNdebele (South Africa)");
    }
    if chars_are(c, "ny-mw") {
        return Some("Chichewa (Malawi)");
    }
    if chars_are(c, "oc-fr") {
        return Some("Occitan (France)");
    }
    if chars_are(c, "os-ge") {
        return Some("Ирон æвзаг (Росси)");
    }
    if chars_are(c, "om-et") {
        return Some("Afaan Oromoo (Itoophiyaa)");
    }
    if chars_are(c, "om-ke") {
        return Some("Afaan Oromoo (Keeniyaa)");
    }
    if chars_are(c, "or-in") {
        return Some("ଓଡ଼ିଆ (ଭାରତ)");
    }
    if chars_are(c, "os-ru") {
        return Some("Ирон æвзаг (Росси)");
    }
    if chars_are(c, "pa-in") {
        return Some("ਪੰਜਾਬੀ (ਭਾਰਤ)");
    }
    if chars_are(c, "pa-pk") {
        return Some("پنجابی (پاکستان)");
    }
    if chars_are(c, "pl-pl") {
        return Some("Polski (Polska)");
    }
    if chars_are(c, "ps-af") {
        return Some("پښتو (افغانستان)");
    }
    if chars_are(c, "ps-pk") {
        return Some("پښتو (پاکستان)");
    }
    if chars_are(c, "pt-ao") {
        return Some("Português (Angola)");
    }
    None
}

/// The name of a language as spoken in a country, by lowercase `lang-country` code (part 8 of 18).
pub open spec fn country_language_name_7(c: Seq<char>) -> Option<Seq<char>> {
    if c == "pt-br"@ {
        Some("Português (Brasil)"@)
    } else if c == "pt-ch"@ {
        Some("Português (Suíça)"@)
    } else if c == "pt-cv"@ {
        Some("Português (Cabo Verde)"@)
    } else if c == "pt-fr"@ {
        Some("Português (França)"@)
    } else if c == "pt-gq"@ {
        Some("Português (Guiné Equatorial)"@)
    } else if c == "pt-gw"@ {
        Some("Português (Guiné-Bissau)"@)
    } else if c == "pt-mz"@ {
        Some("Português (Moçambique)"@)
    } else if c == "pt-lu"@ {
        Some("Português (Luxemburgo)"@)
    } else if c == "pt-mo"@ {
        Some("Português (Macau)"@)
    } else if c == "pt-pt"@ {
        Some("Português (Portugal)"@)
    } else if c == "pt-st"@ {
        Some("Português (São Tomé e Príncipe)"@)
    } else if c == "pt-tl"@ {
        Some("Português (Timor-Leste)"@)
    } else if c == "qu-bo"@ {
        Some("Runa simi (Bolivia)"@)
    } else if c == "qu-ec"@ {
        Some("Runa simi (Ecuador)"@)
    } else if c == "qu-pe"@ {
        Some("Runa simi (Perú)"@)
    } else if c == "rn-bi"@ {
        Some("Ikirundi (Burundi)"@)
    } else if c == "ro-md"@ {
        Some("Română (Republica Moldova)"@)
    } else if c == "ro-ro"@ {
        Some("Română (România)"@)
    } else if c == "ru-by"@ {
        Some("Русский язык (Беларусь)"@)
    } else if c == "ru-kg"@ {
        Some("Русский язык (Киргизия)"@)
    } else if c == "ru-kz"@ {
        Some("Русский язык (Казахстан)"@)
    } else if c == "ru-md"@ {
        Some("Русский язык (Молдова)"@)
    } else if c == "ru-ru"@ {
        Some("Русский язык (Россия)"@)
    } else if c == "ru-ua"@ {
        Some("Русский язык (Украина)"@)
    } else if c == "rw-rw"@ {
        Some("Kinyarwanda (Rwanda)"@)
    } else if c == "sa-in"@ {
        Some("संस्कृतम् (भारतः)"@)
    } else if c == "sa-it"@ {
        Some("संस्कृतम् (इटली)"@)
    } else if c == "sd-pk"@ {
        Some("سنڌي (پاکستان)"@)
    } else if c == "se-fi"@ {
        Some("Davvisámegiella (Suopma)"@)
    } else if c == "se-no"@ {
        Some("Davvisámegiella (Norga)"@)
    } else if c == "se-se"@ {
        Some("Davvisámegiella (Ruoŧŧa)"@)
    } else if c == "sg-cf"@ {
        Some("Sängö (République centrafricaine)"@)
    } else if c == "si-lk"@ {
        Some("සිංහල (ශ්‍රී ලංකා)"@)
    } else if c == "sk-sk"@ {
        Some("Slovenčina (Slovenská republika)"@)
    } else if c == "sl-si"@ {
        Some("Slovenščina (Slovenija)"@)
    } else if c == "sn-zw"@ {
        Some("chiShona (Zimbabwe)"@)
    } else if c == "so-et"@ {
        Some("Soomaaliga (Itoobiya)"@)
    } else if c == "so-ke"@ {
        Some("Soomaaliga (Kenya)"@)
    } else if c == "so-so"@ {
        Some("Soomaaliga (Soomaaliya)"@)
    } else if c == "sq-al"@ {
        Some("Shqip (Shqipëri)"@)
    } else if c == "sq-mk"@ {
        Some("Shqip (Maqedoni)"@)
    } else if c == "sq-xk"@ {
        Some("Shqip (Kosovë)"@)
    } else if c == "sr-ba"@ {
        Some("Српски (Босна и Херцеговина)"@)
    } else if c == "sr-me"@ {
        Some("Српски (Црна Гора)"@)
    } else if c == "sr-rs"@ {
        Some("Српски (Србија)"@)
    } else if c == "sr-xk"@ {
        Some("Српски (Косово)"@)
    } else if c == "ss-sz"@ {
        Some("SiSwati (Swaziland)"@)
    } else if c == "ss-za"@ {
        Some("SiSwati (South Africa)"@)
    } else if c == "st-ls"@ {
        Some("Sesotho (Lesotho)"@)
    } else if c == "st-za"@ {
        Some("Sesotho (South Africa)"@)
    } else if c == "sv-ax"@ {
        Some("Svenska (Åland)"@)
    } else if c == "sv-fi"@ {
        Some("Svenska (Finland)"@)
    } else if c == "sw-cd"@ {
        Some("Kiswahili (Jamhuri ya Kidemokrasia ya Kongo)"@)
    } else if c == "sw-ke"@ {
        Some("Kiswahili (Kenya)"@)
    } else if c == "sw-tz"@ {
        Some("Kiswahili (Tanzania)"@)
    } else if c == "sw-ug"@ {
        Some("Kiswahili (Uganda)"@)
    } else if c == "ta-in"@ {
        Some("தமிழ் (இந்தியா)"@)
    } else if c == "ta-lk"@ {
        Some("தமிழ் (இலங்கை)"@)
    } else if c == "ta-my"@ {
        Some("தமிழ் (மலேசியா)"@)
    } else if c == "ta-sg"@ {
        Some("தமிழ் (சிங்கப்பூர்)"@)
    } else {
        None
    }
}

fn country_language_name_part_7(c: &[char]) -> (r: Option<&'static str>)
    ensures
        match r {
            Some(n) => country_language_name_7(c@) == Some(n@),
            None => country_language_name_7(c@) is None,
        },
{
    if chars_are(c, "pt-br") {
        return Some("Português (Brasil)");
    }
    if chars_are(c, "pt-ch") {
        return Some("Português (Suíça)");
    }
    if chars_are(c, "pt-cv") {
        return Some("Português (Cabo Verde)");
    }
    if chars_are(c, "pt-fr") {
        return Some("Português (França)");
    }
    if chars_are(c, "pt-gq") {
        return Some("Português (Guiné Equatorial)");
    }
    if chars_are(c, "pt-gw") {
        return Some("Português (Guiné-Bissau)");
    }
    if chars_are(c, "pt-mz") {
        return Some("Português (Moçambique)");
    }
    if chars_are(c, "pt-lu") {
        return Some("Português (Luxemburgo)");
    }
    if chars_are(c, "pt-mo") {
        return Some("Português (Macau)");
    }
    if chars_are(c, "pt-pt") {
        return Some("Português (Portugal)");
    }
    if chars_are(c, "pt-st") {
        return Some("Português (São Tomé e Príncipe)");
    }
    if chars_are(c, "pt-tl") {
        return Some("Português (Timor-Leste)");
    }
    if chars_are(c, "qu-bo") {
        return Some("Runa simi (Bolivia)");
    }
    if chars_are(c, "qu-ec") {
        return Some("Runa simi (Ecuador)");
    }
    if chars_are(c, "qu-pe") {
        return Some("Runa simi (Perú)");
    }
    if chars_are(c, "rn-bi") {
        return Some("Ikirundi (Burundi)");
    }
    if chars_are(c, "ro-md") {
        return Some("Română (Republica Moldova)");
    }
    if chars_are(c, "ro-ro") {
        return Some("Română (România)");
    }
    if chars_are(c, "ru-by") {
        return Some("Русский язык (Беларусь)");
    }
    if chars_are(c, "ru-kg") {
        return Some("Русский язык (Киргизия)");
    }
    if chars_are(c, "ru-kz") {
        return Some("Русский язык (Казахстан)");
    }
    if chars_are(c, "ru-md") {
        return Some("Русский язык (Молдова)");
    }
    if chars_are(c, "ru-ru") {
        return Some("Русский язык (Россия)");
    }
    if chars_are(c, "ru-ua") {
        return Some("Русский язык (Украина)");
    }
    if chars_are(c, "rw-rw") {
        return Some("Kinyarwanda (Rwanda)");
    }
    if chars_are(c, "sa-in") {
        return Some("संस्कृतम् (भारतः)");
    }
    if chars_are(c, "sa-it") {
        return Some("संस्कृतम् (इटली)");
    }
    if chars_are(c, "sd-pk") {
        return Some("سنڌي (پاکستان)");
    }
    if chars_are(c, "se-fi") {
        return Some("Davvisámegiella (Suopma)");
    }
    if chars_are(c, "se-no") {
        return Some("Davvisámegiella (Norga)");
    }
    if chars_are(c, "se-se") {
        return Some("Davvisámegiella (Ruoŧŧa)");
    }
    if chars_are(c, "sg-cf") {
        return Some("Sängö (République centrafricaine)");
    }
    if chars_are(c, "si-lk") {
        return Some("සිංහල (ශ්‍රී ලංකා)");
    }
    if chars_are(c, "sk-sk") {
        return Some("Slovenčina (Slovenská republika)");
    }
    if chars_are(c, "sl-si") {
        return Some("Slovenščina (Slovenija)");
    }
    if chars_are(c, "sn-zw") {
        return Some("chiShona (Zimbabwe)");
    }
    if chars_are(c, "so-et") {
        return Some("Soomaaliga (Itoobiya)");
    }
    if chars_are(c, "so-ke") {
        return Some("Soomaaliga (Kenya)");
    }
    if chars_are(c, "so-so") {
        return Some("Soomaaliga (Soomaaliya)");
    }
    if chars_are(c, "sq-al") {
        return Some("Shqip (Shqipëri)");
    }
    if chars_are(c, "sq-mk") {
        return Some("Shqip (Maqedoni)");
    }
    if chars_are(c, "sq-xk") {
        return Some("Shqip (Kosovë)");
    }
    if chars_are(c, "sr-ba") {
        return Some("Српски (Босна и Херцеговина)");
    }
    if chars_are(c, "sr-me") {
        return Some("Српски (Црна Гора)");
    }
    if chars_are(c, "sr-rs") {
        return Some("Српски (Србија)");
    }
    if chars_are(c, "sr-xk") {
        return Some("Српски (Косово)");
    }
    if chars_are(c, "ss-sz") {
        return Some("SiSwati (Swaziland)");
    }
    if chars_are(c, "ss-za") {
        return Some("SiSwati (South Africa)");
    }
    if chars_are(c, "st-ls") {
        return Some("Sesotho (Lesotho)");
    }
    if chars_are(c, "st-za") {
        return Some("Sesotho (South Africa)");
    }
    if chars_are(c, "sv-ax") {
        return Some("Svenska (Åland)");
    }
    if chars_are(c, "sv-fi") {
        return Some("Svenska (Finland)");
    }
    if chars_are(c, "sw-cd") {
        return Some("Kiswahili (Jamhuri ya Kidemokrasia ya Kongo)");
    }
    if chars_are(c, "sw-ke") {
        return Some("Kiswahili (Kenya)");
    }
    if chars_are(c, "sw-tz") {
        return Some("Kiswahili (Tanzania)");
    }
    if chars_are(c, "sw-ug") {
        return Some("Kiswahili (Uganda)");
    }
    if chars_are(c, "ta-in") {
        return Some("தமிழ் (இந்தியா)");
    }
    if chars_are(c, "ta-lk") {
        return Some("தமிழ் (இலங்கை)");
    }
    if chars_are(c, "ta-my") {
        return Some("தமிழ் (மலேசியா)");
    }
    if chars_are(c, "ta-sg") {
        return Some("தமிழ் (சிங்கப்பூர்)");
    }
    None
}

/// The name of a language as spoken in a country, by lowercase `lang-country` code (part 9 of 18).
pub open spec fn country_language_name_8(c: Seq<char>) -> Option<Seq<char>> {
    if c == "te-in"@ {
        Some("తెలుగు (భారత)"@)
    } else if c == "tg-tj"@ {
        Some("тоҷикӣ (Тоҷикистон)"@)
    } else if c == "th-th"@ {
        Some("ไทย (ไทย)"@)
    } else if c == "ti-er"@ {
        Some("ትግርኛ (ኤርትራ)"@)
    } else if c == "ti-et"@ {
        Some("ትግርኛ (ኢትዮጵያ)"@)
    } else if c == "tk-tm"@ {
        Some("Türkmençe (Türkmenistan)"@)
    } else if c == "tn-bw"@ {
        Some("Setswana (Botswana)"@)
    } else if c == "tn-za"@ {
        Some("Setswana (South Africa)"@)
    } else if c == "to-to"@ {
        Some("faka Tonga (Tonga)"@)
    } else if c == "tr-cy"@ {
        Some("Türkçe (Kıbrıs)"@)
    } else if c == "tr-tr"@ {
        Some("Türkçe (Türkiye)"@)
    } else if c == "ts-za"@ {
        Some("Xitsonga (South Africa)"@)
    } else if c == "tt-ru"@ {
        Some("Татар теле (Россия)"@)
    } else if c == "ug-cn"@ {
        Some("ئۇيغۇرچە (جۇڭگو)"@)
    } else if c == "uk-ua"@ {
        Some("Українська (Україна)"@)
    } else if c == "ur-in"@ {
        Some("اردو (بھارت)"@)
    } else if c == "ur-pk"@ {
        Some("اردو (پاکستان)"@)
    } else if c == "uz-af"@ {
        Some("O'zbekiston (Afg'oniston)"@)
    } else if c == "uz-uz"@ {
        Some("O'zbekiston (O'zbekiston)"@)
    } else if c == "ve-za"@ {
        Some("Tshivenḓa (South Africa)"@)
    } else if c == "vi-vn"@ {
        Some("Tiếng Việt (Việt Nam)"@)
    } else if c == "wa-be"@ {
        Some("Walon (Belgique)"@)
    } else if c == "wo-sn"@ {
        Some("Wolof (Sénégal)"@)
    } else if c == "xh-za"@ {
        Some("isiXhosa (South Africa)"@)
    } else if c == "yo-bj"@ {
        Some("Yorùbá (Bénin)"@)
    } else if c == "yo-ng"@ {
        Some("Yorùbá (Nàìjíríà)"@)
    } else if c == "zh-cn"@ {
        Some("中文 (简体)"@)
    } else if c == "zh-hk"@ {
        Some("中文 (香港)"@)
    } else if c == "zh-mo"@ {
        Some("中文 (澳門)"@)
    } else if c == "zh-sg"@ {
        Some("中文 (新加坡)"@)
    } else if c == "zh-tw"@ {
        Some("中文 (繁體)"@)
    } else if c == "zu-za"@ {
        Some("isiZulu (South Africa)"@)
    } else if c == "af-nam"@ {
        Some("Afrikaans (Namibia)"@)
    } else if c == "af-zaf"@ {
        Some("Afrikaans (South Africa)"@)
    } else if c == "ak-gha"@ {
        Some("Akan (Ghana)"@)
    } else if c == "am-eth"@ {
        Some("አማርኛ (ኢትዮጵያ)"@)
    } else if c == "ar-001"@ {
        Some("العربية"@)
    } else if c == "ar-are"@ {
        Some("العربية (الإمارات العربية المتحدة)"@)
    } else if c == "ar-bhr"@ {
        Some("العربية (البحرين)"@)
    } else if c == "ar-com"@ {
        Some("العربية (جزر القمر)"@)
    } else if c == "ar-dji"@ {
        Some("العربية (جيبوتي)"@)
    } else if c == "ar-dza"@ {
        Some("العربية (الجزائر)"@)
    } else if c == "ar-egy"@ {
        Some("العربية (مصر)"@)
    } else if c == "ar-eri"@ {
        Some("العربية (إريتريا)"@)
    } else if c == "ar-esh"@ {
        Some("العربية (الصحراء الغربية)"@)
    } else if c == "ar-irq"@ {
        Some("العربية (العراق)"@)
    } else if c == "ar-isr"@ {
        Some("العربية (إسرائيل)"@)
    } else if c == "ar-jor"@ {
        Some("العربية (الأردن)"@)
    } else if c == "ar-kwt"@ {
        Some("العربية (الكويت)"@)
    } else if c == "ar-lbn"@ {
        Some("العربية (لبنان)"@)
    } else if c == "ar-lby"@ {
        Some("العربية (ليبيا)"@)
    } else if c == "ar-mar"@ {
        Some("العربية (المغرب)"@)
    } else if c == "ar-mrt"@ {
        Some("العربية (موريتانيا)"@)
    } else if c == "ar-omn"@ {
        Some("العربية (عمان)"@)
    } else if c == "ar-pse"@ {
        Some("العربية (فلسطين)"@)
    } else if c == "ar-qat"@ {
        Some("العربية (قطر)"@)
    } else if c == "ar-sau"@ {
        Some("العربية (المملكة العربية السعودية)"@)
    } else if c == "ar-sdn"@ {
        Some("العربية (السودان)"@)
    } else if c == "ar-som"@ {
        Some("العربية (الصومال)"@)
    } else if c == "ar-ssd"@ {
        Some("العربية (جنوب السودان)"@)
    } else {
        None
    }
}

fn country_language_name_part_8(c: &[char]) -> (r: Option<&'static str>)
    ensures
        match r {
            Some(n) => country_language_name_8(c@) == Some(n@),
            None => country_language_name_8(c@) is None,
        },
{
    if chars_are(c, "te-in") {
        return Some("తెలుగు (భారత)");
    }
    if chars_are(c, "tg-tj") {
        return Some("тоҷикӣ (Тоҷикистон)");
    }
    if chars_are(c, "th-th") {
        return Some("ไทย (ไทย)");
    }
    if chars_are(c, "ti-er") {
        return Some("ትግርኛ (ኤርትራ)");
    }
    if chars_are(c, "ti-et") {
        return Some("ትግርኛ (ኢትዮጵያ)");
    }
    if chars_are(c, "tk-tm") {
        return Some("Türkmençe (Türkmenistan)");
    }
    if chars_are(c, "tn-bw") {
        return Some("Setswana (Botswana)");
    }
    if chars_are(c, "tn-za") {
        return Some("Setswana (South Africa)");
    }
    if chars_are(c, "to-to") {
        return Some("faka Tonga (Tonga)");
    }
    if chars_are(c, "tr-cy") {
        return Some("Türkçe (Kıbrıs)");
    }
    if chars_are(c, "tr-tr") {
        return Some("Türkçe (Türkiye)");
    }
    if chars_are(c, "ts-za") {
        return Some("Xitsonga (South Africa)");
    }
    if chars_are(c, "tt-ru") {
        return Some("Татар теле (Россия)");
    }
    if chars_are(c, "ug-cn") {
        return Some("ئۇيغۇرچە (جۇڭگو)");
    }
    if chars_are(c, "uk-ua") {
        return Some("Українська (Україна)");
    }
    if chars_are(c, "ur-in") {
        return Some("اردو (بھارت)");
    }
    if chars_are(c, "ur-pk") {
        return Some("اردو (پاکستان)");
    }
    if chars_are(c, "uz-af") {
        return Some("O'zbekiston (Afg'oniston)");
    }
    if chars_are(c, "uz-uz") {
        return Some("O'zbekiston (O'zbekiston)");
    }
    if chars_are(c, "ve-za") {
        return Some("Tshivenḓa (South Africa)");
    }
    if chars_are(c, "vi-vn") {
        return Some("Tiếng Việt (Việt Nam)");
    }
    if chars_are(c, "wa-be") {
        return Some("Walon (Belgique)");
    }
    if chars_are(c, "wo-sn") {
        return Some("Wolof (Sénégal)");
    }
    if chars_are(c, "xh-za") {
        return Some("isiXhosa (South Africa)");
    }
    if chars_are(c, "yo-bj") {
        return Some("Yorùbá (Bénin)");
    }
    if chars_are(c, "yo-ng") {
        return Some("Yorùbá (Nàìjíríà)");
    }
    if chars_are(c, "zh-cn") {
        return Some("中文 (简体)");
    }
    if chars_are(c, "zh-hk") {
        return Some("中文 (香港)");
    }
    if chars_are(c, "zh-mo") {
        return Some("中文 (澳門)");
    }
    if chars_are(c, "zh-sg") {
        return Some("中文 (新加坡)");
    }
    if chars_are(c, "zh-tw") {
        return Some("中文 (繁體)");
    }
    if chars_are(c, "zu-za") {
        return Some("isiZulu (South Africa)");
    }
    if chars_are(c, "af-nam") {
        return Some("Afrikaans (Namibia)");
    }
    if chars_are(c, "af-zaf") {
        return Some("Afrikaans (South Africa)");
    }
    if chars_are(c, "ak-gha") {
        return Some("Akan (Ghana)");
    }
    if chars_are(c, "am-eth") {
        return Some("አማርኛ (ኢትዮጵያ)");
    }
    if chars_are(c, "ar-001") {
        return Some("العربية");
    }
    if chars_are(c, "ar-are") {
        return Some("العربية (الإمارات العربية المتحدة)");
    }
    if chars_are(c, "ar-bhr") {
        return Some("العربية (البحرين)");
    }
    if chars_are(c, "ar-com") {
        return Some("العربية (جزر القمر)");
    }
    if chars_are(c, "ar-dji") {
        return Some("العربية (جيبوتي)");
    }
    if chars_are(c, "ar-dza") {
        return Some("العربية (الجزائر)");
    }
    if chars_are(c, "ar-egy") {
        return Some("العربية (مصر)");
    }
    if chars_are(c, "ar-eri") {
        return Some("العربية (إريتريا)");
    }
    if chars_are(c, "ar-esh") {
        return Some("العربية (الصحراء الغربية)");
    }
    if chars_are(c, "ar-irq") {
        return Some("العربية (العراق)");
    }
    if chars_are(c, "ar-isr") {
        return Some("العربية (إسرائيل)");
    }
    if chars_are(c, "ar-jor") {
        return Some("العربية (الأردن)");
    }
    if chars_are(c, "ar-kwt") {
        return Some("العربية (الكويت)");
    }
    if chars_are(c, "ar-lbn") {
        return Some("العربية (لبنان)");
    }
    if chars_are(c, "ar-lby") {
        return Some("العربية (ليبيا)");
    }
    if chars_are(c, "ar-mar") {
        return Some("العربية (المغرب)");
    }
    if chars_are(c, "ar-mrt") {
        return Some("العربية (موريتانيا)");
    }
    if chars_are(c, "ar-omn") {
        return Some("العربية (عمان)");
    }
    if chars_are(c, "ar-pse") {
        return Some("العربية (فلسطين)");
    }
    if chars_are(c, "ar-qat") {
        return Some("العربية (قطر)");
    }
    if chars_are(c, "ar-sau") {
        return Some("العربية (المملكة العربية السعودية)");
    }
    if chars_are(c, "ar-sdn") {
        return Some("العربية (السودان)");
    }
    if chars_are(c, "ar-som") {
        return Some("العربية (الصومال)");
    }
    if chars_are(c, "ar-ssd") {
        return Some("العربية (جنوب السودان)");
    }
    None
}

/// The name of a language as spoken in a country, by lowercase `lang-country` code (part 10 of 18).
pub open spec fn country_language_name_9(c: Seq<char>) -> Option<Seq<char>> {
    if c == "ar-syr"@ {
        Some("العربية (سوريا)"@)
    } else if c == "ar-tcd"@ {
        Some("العربية (تشاد)"@)
    } else if c == "ar-tun"@ {
        Some("العربية (تونس)"@)
    } else if c == "as-ind"@ {
        Some("অসমীয়া (ভাৰত)"@)
    } else if c == "az-aze"@ {
        Some("Azərbaycan dili (Azərbaycan)"@)
    } else if c == "ba-rus"@ {
        Some("башҡорт теле (Россия)"@)
    } else if c == "be-blr"@ {
        Some("Беларуская мова (Беларусь)"@)
    } else if c == "bg-bgr"@ {
        Some("български език (България)"@)
    } else if c == "bm-mli"@ {
        Some("ߓߊߡߊߣߊߣߞߊߣ (ߞߊ߲ߞߊ߲)"@)
    } else if c == "bn-bgd"@ {
        Some("বাংলা (বাংলাদেশ)"@)
    } else if c == "bn-ind"@ {
        Some("বাংলা (ভারত)"@)
    } else if c == "bo-chn"@ {
        Some("བོད་སྐད་ (ཀྲུང་ཧྭ)"@)
    } else if c == "bo-ind"@ {
        Some("བོད་སྐད་ (ཀྲུང་ཧྭ)"@)
    } else if c == "br-fra"@ {
        Some("Brezhoneg (Frañs)"@)
    } else if c == "bs-bih"@ {
        Some("Bosanski (Bosna i Hercegovina)"@)
    } else if c == "ca-and"@ {
        Some("Català (Andorra)"@)
    } else if c == "ca-esp"@ {
        Some("Català (Espanya)"@)
    } else if c == "ca-fra"@ {
        Some("Català (França)"@)
    } else if c == "ca-ita"@ {
        Some("Català (Itàlia)"@)
    } else if c == "ce-rus"@ {
        Some("нохчийн мотт (Росси)"@)
    } else if c == "co-fra"@ {
        Some("Corsu (France)"@)
    } else if c == "cs-cze"@ {
        Some("Čeština (Česká republika)"@)
    } else if c == "cv-rus"@ {
        Some("чӑваш чӗлхи (Росси)"@)
    } else if c == "cy-gbr"@ {
        Some("Cymraeg (Y Deyrnas Unedig)"@)
    } else if c == "da-dnk"@ {
        Some("Dansk (Danmark)"@)
    } else if c == "da-grl"@ {
        Some("Dansk (Grønland)"@)
    } else if c == "de-aut"@ {
        Some("Deutsch (Österreich)"@)
    } else if c == "de-bel"@ {
        Some("Deutsch (Belgien)"@)
    } else if c == "de-che"@ {
        Some("Deutsch (Schweiz)"@)
    } else if c == "de-deu"@ {
        Some("Deutsch (Deutschland)"@)
    } else if c == "de-ita"@ {
        Some("Deutsch (Italien)"@)
    } else if c == "de-lie"@ {
        Some("Deutsch (Liechtenstein)"@)
    } else if c == "de-lux"@ {
        Some("Deutsch (Luxemburg)"@)
    } else if c == "dv-mdv"@ {
        Some("ދިވެހި (ދިވެހި)"@)
    } else if c == "dz-btn"@ {
        Some("རྫོང་ཁ་ (འབྲུག་ཡུལ)"@)
    } else if c == "ee-gha"@ {
        Some("Eʋegbe (Ghana)"@)
    } else if c == "ee-tgo"@ {
        Some("Eʋegbe (Togo)"@)
    } else if c == "el-cyp"@ {
        Some("Νέα Ελληνικά (Κύπρος)"@)
    } else if c == "el-grc"@ {
        Some("Νέα Ελληνικά (Ελλάδα)"@)
    } else if c == "en-001"@ {
        Some("English"@)
    } else if c == "en-150"@ {
        Some("English (Europe)"@)
    } else if c == "en-aia"@ {
        Some("English (Anguilla)"@)
    } else if c == "en-alb"@ {
        Some("English (Albania)"@)
    } else if c == "en-and"@ {
        Some("English (Andorra)"@)
    } else if c == "en-are"@ {
        Some("English (United Arab Emirates)"@)
    } else if c == "en-arg"@ {
        Some("English (Argentina)"@)
    } else if c == "en-asm"@ {
        Some("English (American Samoa)"@)
    } else if c == "en-atg"@ {
        Some("English (Antigua and Barbuda)"@)
    } else if c == "en-aus"@ {
        Some("English (Australia)"@)
    } else if c == "en-aut"@ {
        Some("English (Austria)"@)
    } else if c == "en-bdi"@ {
        Some("English (Burundi)"@)
    } else if c == "en-bel"@ {
        Some("English (Belgium)"@)
    } else if c == "en-bgd"@ {
        Some("English (Bangladesh)"@)
    } else if c == "en-bgr"@ {
        Some("English (Bulgaria)"@)
    } else if c == "en-bhs"@ {
        Some("English (Bahamas)"@)
    } else if c == "en-bih"@ {
        Some("English (Bosnia and Herzegovina)"@)
    } else if c == "en-bmu"@ {
        Some("English (Bermuda)"@)
    } else if c == "en-blz"@ {
        Some("English (Belize)"@)
    } else if c == "en-bra"@ {
        Some("English (Brazil)"@)
    } else if c == "en-brb"@ {
        Some("English (Barbados)"@)
    } else {
        None
    }
}

fn country_language_name_part_9(c: &[char]) -> (r: Option<&'static str>)
    ensures
        match r {
            Some(n) => country_language_name_9(c@) == Some(n@),
            None => country_language_name_9(c@) is None,
        },
{
    if chars_are(c, "ar-syr") {
        return Some("العربية (سوريا)");
    }
    if chars_are(c, "ar-tcd") {
        return Some("العربية (تشاد)");
    }
    if chars_are(c, "ar-tun") {
        return Some("العربية (تونس)");
    }
    if chars_are(c, "as-ind") {
        return Some("অসমীয়া (ভাৰত)");
    }
    if chars_are(c, "az-aze") {
        return Some("Azərbaycan dili (Azərbaycan)");
    }
    if chars_are(c, "ba-rus") {
        return Some("башҡорт теле (Россия)");
    }
    if chars_are(c, "be-blr") {
        return Some("Беларуская мова (Беларусь)");
    }
    if chars_are(c, "bg-bgr") {
        return Some("български език (България)");
    }
    if chars_are(c, "bm-mli") {
        return Some("ߓߊߡߊߣߊߣߞߊߣ (ߞߊ߲ߞߊ߲)");
    }
    if chars_are(c, "bn-bgd") {
        return Some("বাংলা (বাংলাদেশ)");
    }
    if chars_are(c, "bn-ind") {
        return Some("বাংলা (ভারত)");
    }
    if chars_are(c, "bo-chn") {
        return Some("བོད་སྐད་ (ཀྲུང་ཧྭ)");
    }
    if chars_are(c, "bo-ind") {
        return Some("བོད་སྐད་ (ཀྲུང་ཧྭ)");
    }
    if chars_are(c, "br-fra") {
        return Some("Brezhoneg (Frañs)");
    }
    if chars_are(c, "bs-bih") {
        return Some("Bosanski (Bosna i Hercegovina)");
    }
    if chars_are(c, "ca-and") {
        return Some("Català (Andorra)");
    }
    if chars_are(c, "ca-esp") {
        return Some("Català (Espanya)");
    }
    if chars_are(c, "ca-fra") {
        return Some("Català (França)");
    }
    if chars_are(c, "ca-ita") {
        return Some("Català (Itàlia)");
    }
    if chars_are(c, "ce-rus") {
        return Some("нохчийн мотт (Росси)");
    }
    if chars_are(c, "co-fra") {
        return Some("Corsu (France)");
    }
    if chars_are(c, "cs-cze") {
        return Some("Čeština (Česká republika)");
    }
    if chars_are(c, "cv-rus") {
        return Some("чӑваш чӗлхи (Росси)");
    }
    if chars_are(c, "cy-gbr") {
        return Some("Cymraeg (Y Deyrnas Unedig)");
    }
    if chars_are(c, "da-dnk") {
        return Some("Dansk (Danmark)");
    }
    if chars_are(c, "da-grl") {
        return Some("Dansk (Grønland)");
    }
    if chars_are(c, "de-aut") {
        return Some("Deutsch (Österreich)");
    }
    if chars_are(c, "de-bel") {
        return Some("Deutsch (Belgien)");
    }
    if chars_are(c, "de-che") {
        return Some("Deutsch (Schweiz)");
    }
    if chars_are(c, "de-deu") {
        return Some("Deutsch (Deutschland)");
    }
    if chars_are(c, "de-ita") {
        return Some("Deutsch (Italien)");
    }
    if chars_are(c, "de-lie") {
        return Some("Deutsch (Liechtenstein)");
    }
    if chars_are(c, "de-lux") {
        return Some("Deutsch (Luxemburg)");
    }
    if chars_are(c, "dv-mdv") {
        return Some("ދިވެހި (ދިވެހި)");
    }
    if chars_are(c, "dz-btn") {
        return Some("རྫོང་ཁ་ (འབྲུག་ཡུལ)");
    }
    if chars_are(c, "ee-gha") {
        return Some("Eʋegbe (Ghana)");
    }
    if chars_are(c, "ee-tgo") {
        return Some("Eʋegbe (Togo)");
    }
    if chars_are(c, "el-cyp") {
        return Some("Νέα Ελληνικά (Κύπρος)");
    }
    if chars_are(c, "el-grc") {
        return Some("Νέα Ελληνικά (Ελλάδα)");
    }
    if chars_are(c, "en-001") {
        return Some("English");
    }
    if chars_are(c, "en-150") {
        return Some("English (Europe)");
    }
    if chars_are(c, "en-aia") {
        return Some("English (Anguilla)");
    }
    if chars_are(c, "en-alb") {
        return Some("English (Albania)");
    }
    if chars_are(c, "en-and") {
        return Some("English (Andorra)");
    }
    if chars_are(c, "en-are") {
        return Some("English (United Arab Emirates)");
    }
    if chars_are(c, "en-arg") {
        return Some("English (Argentina)");
    }
    if chars_are(c, "en-asm") {
        return Some("English (American Samoa)");
    }
    if chars_are(c, "en-atg") {
        return Some("English (Antigua and Barbuda)");
    }
    if chars_are(c, "en-aus") {
        return Some("English (Australia)");
    }
    if chars_are(c, "en-aut") {
        return Some("English (Austria)");
    }
    if chars_are(c, "en-bdi") {
        return Some("English (Burundi)");
    }
    if chars_are(c, "en-bel") {
        return Some("English (Belgium)");
    }
    if chars_are(c, "en-bgd") {
        return Some("English (Bangladesh)");
    }
    if chars_are(c, "en-bgr") {
        return Some("English (Bulgaria)");
    }
    if chars_are(c, "en-bhs") {
        return Some("English (Bahamas)");
    }
    if chars_are(c, "en-bih") {
        return Some("English (Bosnia and Herzegovina)");
    }
    if chars_are(c, "en-bmu") {
        return Some("English (Bermuda)");
    }
    if chars_are(c, "en-blz") {
        return Some("English (Belize)");
    }
    if chars_are(c, "en-bra") {
        return Some("English (Brazil)");
    }
    if chars_are(c, "en-brb") {
        return Some("English (Barbados)");
    }
    None
}

/// The name of a language as spoken in a country, by lowercase `lang-country` code (part 11 of 18).
pub open spec fn country_language_name_10(c: Seq<char>) -> Option<Seq<char>> {
    if c == "en-bwa"@ {
        Some("English (Botswana)"@)
    } else if c == "en-can"@ {
        Some("English (Canada)"@)
    } else if c == "en-cck"@ {
        Some("English (Cocos Islands)"@)
    } else if c == "en-che"@ {
        Some("English (Switzerland)"@)
    } else if c == "en-chl"@ {
        Some("English (Chile)"@)
    } else if c == "en-chn"@ {
        Some("English (China)"@)
    } else if c == "en-cmr"@ {
        Some("English (Cameroon)"@)
    } else if c == "en-cok"@ {
        Some("English (Cook Islands)"@)
    } else if c == "en-col"@ {
        Some("English (Colombia)"@)
    } else if c == "en-cxr"@ {
        Some("English (Christmas Island)"@)
    } else if c == "en-cym"@ {
        Some("English (Cayman Islands)"@)
    } else if c == "en-cyp"@ {
        Some("English (Cyprus)"@)
    } else if c == "en-cze"@ {
        Some("English (Czech Republic)"@)
    } else if c == "en-deu"@ {
        Some("English (Germany)"@)
    } else if c == "en-dga"@ {
        Some("English (Diego Garcia)"@)
    } else if c == "en-dma"@ {
        Some("English (Dominica)"@)
    } else if c == "en-dnk"@ {
        Some("English (Denmark)"@)
    } else if c == "en-esp"@ {
        Some("English (Spain)"@)
    } else if c == "en-fin"@ {
        Some("English (Finland)"@)
    } else if c == "en-eri"@ {
        Some("English (Eritrea)"@)
    } else if c == "en-est"@ {
        Some("English (Estonia)"@)
    } else if c == "en-fji"@ {
        Some("English (Fiji)"@)
    } else if c == "en-flk"@ {
        Some("English (Falkland Islands)"@)
    } else if c == "en-fra"@ {
        Some("English (France)"@)
    } else if c == "en-fsm"@ {
        Some("English (Micronesia)"@)
    } else if c == "en-gbr"@ {
        Some("English (United Kingdom)"@)
    } else if c == "en-ggy"@ {
        Some("English (Guernsey)"@)
    } else if c == "en-gha"@ {
        Some("English (Ghana)"@)
    } else if c == "en-gib"@ {
        Some("English (Gibraltar)"@)
    } else if c == "en-gmb"@ {
        Some("English (Gambia)"@)
    } else if c == "en-grc"@ {
        Some("English (Greece)"@)
    } else if c == "en-grd"@ {
        Some("English (Grenada)"@)
    } else if c == "en-gum"@ {
        Some("English (Guam)"@)
    } else if c == "en-guy"@ {
        Some("English (Guyana)"@)
    } else if c == "en-hkg"@ {
        Some("English (Hong Kong)"@)
    } else if c == "en-hrv"@ {
        Some("English (Croatia)"@)
    } else if c == "en-hun"@ {
        Some("English (Hungary)"@)
    } else if c == "en-imn"@ {
        Some("English (Isle of Man)"@)
    } else if c == "en-idn"@ {
        Some("English (Indonesia)"@)
    } else if c == "en-ind"@ {
        Some("English (India)"@)
    } else if c == "en-iot"@ {
        Some("English (British Indian Ocean Territory)"@)
    } else if c == "en-irl"@ {
        Some("English (Ireland)"@)
    } else if c == "en-isl"@ {
        Some("English (Iceland)"@)
    } else if c == "en-isr"@ {
        Some("English (Israel)"@)
    } else if c == "en-ita"@ {
        Some("English (Italy)"@)
    } else if c == "en-jam"@ {
        Some("English (Jamaica)"@)
    } else if c == "en-jey"@ {
        Some("English (Jersey)"@)
    } else if c == "en-jpn"@ {
        Some("English (Japan)"@)
    } else if c == "en-ken"@ {
        Some("English (Kenya)"@)
    } else if c == "en-kir"@ {
        Some("English (Kiribati)"@)
    } else if c == "en-kna"@ {
        Some("English (Saint Kitts and Nevis)"@)
    } else if c == "en-kor"@ {
        Some("English (South Korea)"@)
    } else if c == "en-lbr"@ {
        Some("English (Liberia)"@)
    } else if c == "en-lca"@ {
        Some("English (Saint Lucia)"@)
    } else if c == "en-lso"@ {
        Some("English (Lesotho)"@)
    } else if c == "en-ltu"@ {
        Some("English (Lithuania)"@)
    } else if c == "en-lux"@ {
        Some("English (Luxembourg)"@)
    } else if c == "en-lva"@ {
        Some("English (Latvia)"@)
    } else if c == "en-mac"@ {
        Some("English (Macao)"@)
    } else if c == "en-mdg"@ {
        Some("English (Madagascar)"@)
    } else {
        None
    }
}

fn country_language_name_part_10(c: &[char]) -> (r: Option<&'static str>)
    ensures
        match r {
            Some(n) => country_language_name_10(c@) == Some(n@),
            None => country_language_name_10(c@) is None,
        },
{
    if chars_are(c, "en-bwa") {
        return Some("English (Botswana)");
    }
    if chars_are(c, "en-can") {
        return Some("English (Canada)");
    }
    if chars_are(c, "en-cck") {
        return Some("English (Cocos Islands)");
    }
    if chars_are(c, "en-che") {
        return Some("English (Switzerland)");
    }
    if chars_are(c, "en-chl") {
        return Some("English (Chile)");
    }
    if chars_are(c, "en-chn") {
        return Some("English (China)");
    }
    if chars_are(c, "en-cmr") {
        return Some("English (Cameroon)");
    }
    if chars_are(c, "en-cok") {
        return Some("English (Cook Islands)");
    }
    if chars_are(c, "en-col") {
        return Some("English (Colombia)");
    }
    if chars_are(c, "en-cxr") {
        return Some("English (Christmas Island)");
    }
    if chars_are(c, "en-cym") {
        return Some("English (Cayman Islands)");
    }
    if chars_are(c, "en-cyp") {
        return Some("English (Cyprus)");
    }
    if chars_are(c, "en-cze") {
        return Some("English (Czech Republic)");
    }
    if chars_are(c, "en-deu") {
        return Some("English (Germany)");
    }
    if chars_are(c, "en-dga") {
        return Some("English (Diego Garcia)");
    }
    if chars_are(c, "en-dma") {
        return Some("English (Dominica)");
    }
    if chars_are(c, "en-dnk") {
        return Some("English (Denmark)");
    }
    if chars_are(c, "en-esp") {
        return Some("English (Spain)");
    }
    if chars_are(c, "en-fin") {
        return Some("English (Finland)");
    }
    if chars_are(c, "en-eri") {
        return Some("English (Eritrea)");
    }
    if chars_are(c, "en-est") {
        return Some("English (Estonia)");
    }
    if chars_are(c, "en-fji") {
        return Some("English (Fiji)");
    }
    if chars_are(c, "en-flk") {
        return Some("English (Falkland Islands)");
    }
    if chars_are(c, "en-fra") {
        return Some("English (France)");
    }
    if chars_are(c, "en-fsm") {
        return Some("English (Micronesia)");
    }
    if chars_are(c, "en-gbr") {
        return Some("English (United Kingdom)");
    }
    if chars_are(c, "en-ggy") {
        return Some("English (Guernsey)");
    }
    if chars_are(c, "en-gha") {
        return Some("English (Ghana)");
    }
    if chars_are(c, "en-gib") {
        return Some("English (Gibraltar)");
    }
    if chars_are(c, "en-gmb") {
        return Some("English (Gambia)");
    }
    if chars_are(c, "en-grc") {
        return Some("English (Greece)");
    }
    if chars_are(c, "en-grd") {
        return Some("English (Grenada)");
    }
    if chars_are(c, "en-gum") {
        return Some("English (Guam)");
    }
    if chars_are(c, "en-guy") {
        return Some("English (Guyana)");
    }
    if chars_are(c, "en-hkg") {
        return Some("English (Hong Kong)");
    }
    if chars_are(c, "en-hrv") {
        return Some("English (Croatia)");
    }
    if chars_are(c, "en-hun") {
        return Some("English (Hungary)");
    }
    if chars_are(c, "en-imn") {
        return Some("English (Isle of Man)");
    }
    if chars_are(c, "en-idn") {
        return Some("English (Indonesia)");
    }
    if chars_are(c, "en-ind") {
        return Some("English (India)");
    }
    if chars_are(c, "en-iot") {
        return Some("English (British Indian Ocean Territory)");
    }
    if chars_are(c, "en-irl") {
        return Some("English (Ireland)");
    }
    if chars_are(c, "en-isl") {
        return Some("English (Iceland)");
    }
    if chars_are(c, "en-isr") {
        return Some("English (Israel)");
    }
    if chars_are(c, "en-ita") {
        return Some("English (Italy)");
    }
    if chars_are(c, "en-jam") {
        return Some("English (Jamaica)");
    }
    if chars_are(c, "en-jey") {
        return Some("English (Jersey)");
    }
    if chars_are(c, "en-jpn") {
        return Some("English (Japan)");
    }
    if chars_are(c, "en-ken") {
        return Some("English (Kenya)");
    }
    if chars_are(c, "en-kir") {
        return Some("English (Kiribati)");
    }
    if chars_are(c, "en-kna") {
        return Some("English (Saint Kitts and Nevis)");
    }
    if chars_are(c, "en-kor") {
        return Some("English (South Korea)");
    }
    if chars_are(c, "en-lbr") {
        return Some("English (Liberia)");
    }
    if chars_are(c, "en-lca") {
        return Some("English (Saint Lucia)");
    }
    if chars_are(c, "en-lso") {
        return Some("English (Lesotho)");
    }
    if chars_are(c, "en-ltu") {
        return Some("English (Lithuania)");
    }
    if chars_are(c, "en-lux") {
        return Some("English (Luxembourg)");
    }
    if chars_are(c, "en-lva") {
        return Some("English (Latvia)");
    }
    if chars_are(c, "en-mac") {
        return Some("English (Macao)");
    }
    if chars_are(c, "en-mdg") {
        return Some("English (Madagascar)");
    }
    None
}

/// The name of a language as spoken in a country, by lowercase `lang-country` code (part 12 of 18).
pub open spec fn country_language_name_11(c: Seq<char>) -> Option<Seq<char>> {
    if c == "en-mdv"@ {
        Some("English (Maldives)"@)
    } else if c == "en-mex"@ {
        Some("English (Mexico)"@)
    } else if c == "en-mhl"@ {
        Some("English (Marshall Islands)"@)
    } else if c == "en-mlt"@ {
        Some("English (Malta)"@)
    } else if c == "en-mmr"@ {
        Some("English (Myanmar)"@)
    } else if c == "en-mne"@ {
        Some("English (Montenegro)"@)
    } else if c == "en-mnp"@ {
        Some("English (Northern Mariana Islands)"@)
    } else if c == "en-msr"@ {
        Some("English (Montserrat)"@)
    } else if c == "en-mus"@ {
        Some("English (Mauritius)"@)
    } else if c == "en-mwi"@ {
        Some("English (Malawi)"@)
    } else if c == "en-mys"@ {
        Some("English (Malaysia)"@)
    } else if c == "en-nam"@ {
        Some("English (Namibia)"@)
    } else if c == "en-nfk"@ {
        Some("English (Norfolk Island)"@)
    } else if c == "en-nga"@ {
        Some("English (Nigeria)"@)
    } else if c == "en-niu"@ {
        Some("English (Niue)"@)
    } else if c == "en-nld"@ {
        Some("English (Netherlands)"@)
    } else if c == "en-nor"@ {
        Some("English (Norway)"@)
    } else if c == "en-nru"@ {
        Some("English (Nauru)"@)
    } else if c == "en-nzl"@ {
        Some("English (New Zealand)"@)
    } else if c == "en-pak"@ {
        Some("English (Pakistan)"@)
    } else if c == "en-pcn"@ {
        Some("English (Pitcairn Islands)"@)
    } else if c == "en-phl"@ {
        Some("English (Philippines)"@)
    } else if c == "en-plw"@ {
        Some("English (Palau)"@)
    } else if c == "en-png"@ {
        Some("English (Papua New Guinea)"@)
    } else if c == "en-pol"@ {
        Some("English (Poland)"@)
    } else if c == "en-pri"@ {
        Some("English (Puerto Rico)"@)
    } else if c == "en-prt"@ {
        Some("English (Portugal)"@)
    } else if c == "en-rou"@ {
        Some("English (Romania)"@)
    } else if c == "en-rus"@ {
        Some("English (Russia)"@)
    } else if c == "en-rwa"@ {
        Some("English (Rwanda)"@)
    } else if c == "en-sau"@ {
        Some("English (Saudi Arabia)"@)
    } else if c == "en-sdn"@ {
        Some("English (Sudan)"@)
    } else if c == "en-shn"@ {
        Some("English (Saint Helena)"@)
    } else if c == "en-sgp"@ {
        Some("English (Singapore)"@)
    } else if c == "en-slb"@ {
        Some("English (Solomon Islands)"@)
    } else if c == "en-sle"@ {
        Some("English (Sierra Leone)"@)
    } else if c == "en-srb"@ {
        Some("English (Serbia)"@)
    } else if c == "en-ssd"@ {
        Some("English (South Sudan)"@)
    } else if c == "en-svk"@ {
        Some("English (Slovakia)"@)
    } else if c == "en-svn"@ {
        Some("English (Slovenia)"@)
    } else if c == "en-swe"@ {
        Some("English (Sweden)"@)
    } else if c == "en-swz"@ {
        Some("English (Swaziland)"@)
    } else if c == "en-sxm"@ {
        Some("English (Sint Maarten)"@)
    } else if c == "en-syc"@ {
        Some("English (Seychelles)"@)
    } else if c == "en-tca"@ {
        Some("English (Turks and Caicos Islands)"@)
    } else if c == "en-tha"@ {
        Some("English (Thailand)"@)
    } else if c == "en-tkl"@ {
        Some("English (Tokelau)"@)
    } else if c == "en-ton"@ {
        Some("English (Tonga)"@)
    } else if c == "en-tto"@ {
        Some("English (Trinidad and Tobago)"@)
    } else if c == "en-tur"@ {
        Some("English (Turkey)"@)
    } else if c == "en-tuv"@ {
        Some("English (Tuvalu)"@)
    } else if c == "en-twn"@ {
        Some("English (Taiwan)"@)
    } else if c == "en-tza"@ {
        Some("English (Tanzania)"@)
    } else if c == "en-uga"@ {
        Some("English (Uganda)"@)
    } else if c == "en-ukr"@ {
        Some("English (Ukraine)"@)
    } else if c == "en-umi"@ {
        Some("English (United States Minor Outlying Islands)"@)
    } else if c == "en-usa"@ {
        Some("English (United States)"@)
    } else if c == "en-vct"@ {
        Some("English (Saint Vincent and the Grenadines)"@)
    } else if c == "en-vgb"@ {
        Some("English (British Virgin Islands)"@)
    } else if c == "en-vir"@ {
        Some("English (U.S. Virgin Islands)"@)
    } else {
        None
    }
}

fn country_language_name_part_11(c: &[char]) -> (r: Option<&'static str>)
    ensures
        match r {
            Some(n) => country_language_name_11(c@) == Some(n@),
            None => country_language_name_11(c@) is None,
        },
{
    if chars_are(c, "en-mdv") {
        return Some("English (Maldives)");
    }
    if chars_are(c, "en-mex") {
        return Some("English (Mexico)");
    }
    if chars_are(c, "en-mhl") {
        return Some("English (Marshall Islands)");
    }
    if chars_are(c, "en-mlt") {
        return Some("English (Malta)");
    }
    if chars_are(c, "en-mmr") {
        return Some("English (Myanmar)");
    }
    if chars_are(c, "en-mne") {
        return Some("English (Montenegro)");
    }
    if chars_are(c, "en-mnp") {
        return Some("English (Northern Mariana Islands)");
    }
    if chars_are(c, "en-msr") {
        return Some("English (Montserrat)");
    }
    if chars_are(c, "en-mus") {
        return Some("English (Mauritius)");
    }
    if chars_are(c, "en-mwi") {
        return Some("English (Malawi)");
    }
    if chars_are(c, "en-mys") {
        return Some("English (Malaysia)");
    }
    if chars_are(c, "en-nam") {
        return Some("English (Namibia)");
    }
    if chars_are(c, "en-nfk") {
        return Some("English (Norfolk Island)");
    }
    if chars_are(c, "en-nga") {
        return Some("English (Nigeria)");
    }
    if chars_are(c, "en-niu") {
        return Some("English (Niue)");
    }
    if chars_are(c, "en-nld") {
        return Some("English (Netherlands)");
    }
    if chars_are(c, "en-nor") {
        return Some("English (Norway)");
    }
    if chars_are(c, "en-nru") {
        return Some("English (Nauru)");
    }
    if chars_are(c, "en-nzl") {
        return Some("English (New Zealand)");
    }
    if chars_are(c, "en-pak") {
        return Some("English (Pakistan)");
    }
    if chars_are(c, "en-pcn") {
        return Some("English (Pitcairn Islands)");
    }
    if chars_are(c, "en-phl") {
        return Some("English (Philippines)");
    }
    if chars_are(c, "en-plw") {
        return Some("English (Palau)");
    }
    if chars_are(c, "en-png") {
        return Some("English (Papua New Guinea)");
    }
    if chars_are(c, "en-pol") {
        return Some("English (Poland)");
    }
    if chars_are(c, "en-pri") {
        return Some("English (Puerto Rico)");
    }
    if chars_are(c, "en-prt") {
        return Some("English (Portugal)");
    }
    if chars_are(c, "en-rou") {
        return Some("English (Romania)");
    }
    if chars_are(c, "en-rus") {
        return Some("English (Russia)");
    }
    if chars_are(c, "en-rwa") {
        return Some("English (Rwanda)");
    }
    if chars_are(c, "en-sau") {
        return Some("English (Saudi Arabia)");
    }
    if chars_are(c, "en-sdn") {
        return Some("English (Sudan)");
    }
    if chars_are(c, "en-shn") {
        return Some("English (Saint Helena)");
    }
    if chars_are(c, "en-sgp") {
        return Some("English (Singapore)");
    }
    if chars_are(c, "en-slb") {
        return Some("English (Solomon Islands)");
    }
    if chars_are(c, "en-sle") {
        return Some("English (Sierra Leone)");
    }
    if chars_are(c, "en-srb") {
        return Some("English (Serbia)");
    }
    if chars_are(c, "en-ssd") {
        return Some("English (South Sudan)");
    }
    if chars_are(c, "en-svk") {
        return Some("English (Slovakia)");
    }
    if chars_are(c, "en-svn") {
        return Some("English (Slovenia)");
    }
    if chars_are(c, "en-swe") {
        return Some("English (Sweden)");
    }
    if chars_are(c, "en-swz") {
        return Some("English (Swaziland)");
    }
    if chars_are(c, "en-sxm") {
        return Some("English (Sint Maarten)");
    }
    if chars_are(c, "en-syc") {
        return Some("English (Seychelles)");
    }
    if chars_are(c, "en-tca") {
        return Some("English (Turks and Caicos Islands)");
    }
    if chars_are(c, "en-tha") {
        return Some("English (Thailand)");
    }
    if chars_are(c, "en-tkl") {
        return Some("English (Tokelau)");
    }
    if chars_are(c, "en-ton") {
        return Some("English (Tonga)");
    }
    if chars_are(c, "en-tto") {
        return Some("English (Trinidad and Tobago)");
    }
    if chars_are(c, "en-tur") {
        return Some("English (Turkey)");
    }
    if chars_are(c, "en-tuv") {
        return Some("English (Tuvalu)");
    }
    if chars_are(c, "en-twn") {
        return Some("English (Taiwan)");
    }
    if chars_are(c, "en-tza") {
        return Some("English (Tanzania)");
    }
    if chars_are(c, "en-uga") {
        return Some("English (Uganda)");
    }
    if chars_are(c, "en-ukr") {
        return Some("English (Ukraine)");
    }
    if chars_are(c, "en-umi") {
        return Some("English (United States Minor Outlying Islands)");
    }
    if chars_are(c, "en-usa") {
        return Some("English (United States)");
    }
    if chars_are(c, "en-vct") {
        return Some("English (Saint Vincent and the Grenadines)");
    }
    if chars_are(c, "en-vgb") {
        return Some("English (British Virgin Islands)");
    }
    if chars_are(c, "en-vir") {
        return Some("English (U.S. Virgin Islands)");
    }
    None
}

/// The name of a language as spoken in a country, by lowercase `lang-country` code (part 13 of 18).
pub open spec fn country_language_name_12(c: Seq<char>) -> Option<Seq<char>> {
    if c == "en-vut"@ {
        Some("English (Vanuatu)"@)
    } else if c == "en-wsm"@ {
        Some("English (Samoa)"@)
    } else if c == "en-zaf"@ {
        Some("English (South Africa)"@)
    } else if c == "en-zmb"@ {
        Some("English (Zambia)"@)
    } else if c == "en-zwe"@ {
        Some("English (Zimbabwe)"@)
    } else if c == "eo-001"@ {
        Some("Esperanto"@)
    } else if c == "es-419"@ {
        Some("Español (Latinoamérica)"@)
    } else if c == "es-abw"@ {
        Some("Español (Aruba)"@)
    } else if c == "es-aia"@ {
        Some("Español (Anguilla)"@)
    } else if c == "es-arg"@ {
        Some("Español (Argentina)"@)
    } else if c == "es-atg"@ {
        Some("Español (Antigua y Barbuda)"@)
    } else if c == "es-bes"@ {
        Some("Español (Caribe holandés)"@)
    } else if c == "es-bhs"@ {
        Some("Español (Bahamas)"@)
    } else if c == "es-blm"@ {
        Some("Español (San Bartolomé)"@)
    } else if c == "es-blz"@ {
        Some("Español (Belice)"@)
    } else if c == "es-bmu"@ {
        Some("Español (Bermuda)"@)
    } else if c == "es-bol"@ {
        Some("Español (Bolivia)"@)
    } else if c == "es-bra"@ {
        Some("Español (Brasil)"@)
    } else if c == "es-brb"@ {
        Some("Español (Barbados)"@)
    } else if c == "es-can"@ {
        Some("Español (Canadá)"@)
    } else if c == "es-chl"@ {
        Some("Español (Chile)"@)
    } else if c == "es-col"@ {
        Some("Español (Colombia)"@)
    } else if c == "es-cri"@ {
        Some("Español (Costa Rica)"@)
    } else if c == "es-cub"@ {
        Some("Español (Cuba)"@)
    } else if c == "es-cuw"@ {
        Some("Español (Curaçao)"@)
    } else if c == "es-cym"@ {
        Some("Español (Islas Caimán)"@)
    } else if c == "es-dma"@ {
        Some("Español (Dominica)"@)
    } else if c == "es-dom"@ {
        Some("Español (República Dominicana)"@)
    } else if c == "es-ecu"@ {
        Some("Español (Ecuador)"@)
    } else if c == "es-esp"@ {
        Some("Español (España)"@)
    } else if c == "es-flk"@ {
        Some("Español (Islas Malvinas)"@)
    } else if c == "es-glp"@ {
        Some("Español (Guadalupe)"@)
    } else if c == "es-gnq"@ {
        Some("Español (Guinea Ecuatorial)"@)
    } else if c == "es-grd"@ {
        Some("Español (Granada)"@)
    } else if c == "es-grl"@ {
        Some("Español (Groenlandia)"@)
    } else if c == "es-gtm"@ {
        Some("Español (Guatemala)"@)
    } else if c == "es-guf"@ {
        Some("Español (Guayana francesa)"@)
    } else if c == "es-guy"@ {
        Some("Español (Guayana)"@)
    } else if c == "es-hnd"@ {
        Some("Español (Honduras)"@)
    } else if c == "es-hti"@ {
        Some("Español (Haití)"@)
    } else if c == "es-kna"@ {
        Some("Español (San Cristóbal y Nieves)"@)
    } else if c == "es-lca"@ {
        Some("Español (Santa Lucía)"@)
    } else if c == "es-maf"@ {
        Some("Español (San Martín)"@)
    } else if c == "es-mex"@ {
        Some("Español (México)"@)
    } else if c == "es-msr"@ {
        Some("Español (Montserrat)"@)
    } else if c == "es-mtq"@ {
        Some("Español (Martinica)"@)
    } else if c == "es-nic"@ {
        Some("Español (Nicaragua)"@)
    } else if c == "es-pan"@ {
        Some("Español (Panamá)"@)
    } else if c == "es-per"@ {
        Some("Español (Perú)"@)
    } else if c == "es-phl"@ {
        Some("Español (Filipinas)"@)
    } else if c == "es-pri"@ {
        Some("Español (Puerto Rico)"@)
    } else if c == "es-pry"@ {
        Some("Español (Paraguay)"@)
    } else if c == "es-slv"@ {
        Some("Español (El Salvador)"@)
    } else if c == "es-spm"@ {
        Some("Español (San Pedro y Miquelón)"@)
    } else if c == "es-sur"@ {
        Some("Español (Surinam)"@)
    } else if c == "es-sxm"@ {
        Some("Español (San Martín)"@)
    } else if c == "es-tca"@ {
        Some("Español (Islas Turcas y Caicos)"@)
    } else if c == "es-tto"@ {
        Some("Español (Trinidad y Tobago)"@)
    } else if c == "es-ury"@ {
        Some("Español (Uruguay)"@)
    } else if c == "es-usa"@ {
        Some("Español (Estados Unidos)"@)
    } else {
        None
    }
}

fn country_language_name_part_12(c: &[char]) -> (r: Option<&'static str>)
    ensures
        match r {
            Some(n) => country_language_name_12(c@) == Some(n@),
            None => country_language_name_12(c@) is None,
        },
{
    if chars_are(c, "en-vut") {
        return Some("English (Vanuatu)");
    }
    if chars_are(c, "en-wsm") {
        return Some("English (Samoa)");
    }
    if chars_are(c, "en-zaf") {
        return Some("English (South Africa)");
    }
    if chars_are(c, "en-zmb") {
        return Some("English (Zambia)");
    }
    if chars_are(c, "en-zwe") {
        return Some("English (Zimbabwe)");
    }
    if chars_are(c, "eo-001") {
        return Some("Esperanto");
    }
    if chars_are(c, "es-419") {
        return Some("Español (Latinoamérica)");
    }
    if chars_are(c, "es-abw") {
        return Some("Español (Aruba)");
    }
    if chars_are(c, "es-aia") {
        return Some("Español (Anguilla)");
    }
    if chars_are(c, "es-arg") {
        return Some("Español (Argentina)");
    }
    if chars_are(c, "es-atg") {
        return Some("Español (Antigua y Barbuda)");
    }
    if chars_are(c, "es-bes") {
        return Some("Español (Caribe holandés)");
    }
    if chars_are(c, "es-bhs") {
        return Some("Español (Bahamas)");
    }
    if chars_are(c, "es-blm") {
        return Some("Español (San Bartolomé)");
    }
    if chars_are(c, "es-blz") {
        return Some("Español (Belice)");
    }
    if chars_are(c, "es-bmu") {
        return Some("Español (Bermuda)");
    }
    if chars_are(c, "es-bol") {
        return Some("Español (Bolivia)");
    }
    if chars_are(c, "es-bra") {
        return Some("Español (Brasil)");
    }
    if chars_are(c, "es-brb") {
        return Some("Español (Barbados)");
    }
    if chars_are(c, "es-can") {
        return Some("Español (Canadá)");
    }
    if chars_are(c, "es-chl") {
        return Some("Español (Chile)");
    }
    if chars_are(c, "es-col") {
        return Some("Español (Colombia)");
    }
    if chars_are(c, "es-cri") {
        return Some("Español (Costa Rica)");
    }
    if chars_are(c, "es-cub") {
        return Some("Español (Cuba)");
    }
    if chars_are(c, "es-cuw") {
        return Some("Español (Curaçao)");
    }
    if chars_are(c, "es-cym") {
        return Some("Español (Islas Caimán)");
    }
    if chars_are(c, "es-dma") {
        return Some("Español (Dominica)");
    }
    if chars_are(c, "es-dom") {
        return Some("Español (República Dominicana)");
    }
    if chars_are(c, "es-ecu") {
        return Some("Español (Ecuador)");
    }
    if chars_are(c, "es-esp") {
        return Some("Español (España)");
    }
    if chars_are(c, "es-flk") {
        return Some("Español (Islas Malvinas)");
    }
    if chars_are(c, "es-glp") {
        return Some("Español (Guadalupe)");
    }
    if chars_are(c, "es-gnq") {
        return Some("Español (Guinea Ecuatorial)");
    }
    if chars_are(c, "es-grd") {
        return Some("Español (Granada)");
    }
    if chars_are(c, "es-grl") {
        return Some("Español (Groenlandia)");
    }
    if chars_are(c, "es-gtm") {
        return Some("Español (Guatemala)");
    }
    if chars_are(c, "es-guf") {
        return Some("Español (Guayana francesa)");
    }
    if chars_are(c, "es-guy") {
        return Some("Español (Guayana)");
    }
    if chars_are(c, "es-hnd") {
        return Some("Español (Honduras)");
    }
    if chars_are(c, "es-hti") {
        return Some("Español (Haití)");
    }
    if chars_are(c, "es-kna") {
        return Some("Español (San Cristóbal y Nieves)");
    }
    if chars_are(c, "es-lca") {
        return Some("Español (Santa Lucía)");
    }
    if chars_are(c, "es-maf") {
        return Some("Español (San Martín)");
    }
    if chars_are(c, "es-mex") {
        return Some("Español (México)");
    }
    if chars_are(c, "es-msr") {
        return Some("Español (Montserrat)");
    }
    if chars_are(c, "es-mtq") {
        return Some("Español (Martinica)");
    }
    if chars_are(c, "es-nic") {
        return Some("Español (Nicaragua)");
    }
    if chars_are(c, "es-pan") {
        return Some("Español (Panamá)");
    }
    if chars_are(c, "es-per") {
        return Some("Español (Perú)");
    }
    if chars_are(c, "es-phl") {
        return Some("Español (Filipinas)");
    }
    if chars_are(c, "es-pri") {
        return Some("Español (Puerto Rico)");
    }
    if chars_are(c, "es-pry") {
        return Some("Español (Paraguay)");
    }
    if chars_are(c, "es-slv") {
        return Some("Español (El Salvador)");
    }
    if chars_are(c, "es-spm") {
        return Some("Español (San Pedro y Miquelón)");
    }
    if chars_are(c, "es-sur") {
        return Some("Español (Surinam)");
    }
    if chars_are(c, "es-sxm") {
        return Some("Español (San Martín)");
    }
    if chars_are(c, "es-tca") {
        return Some("Español (Islas Turcas y Caicos)");
    }
    if chars_are(c, "es-tto") {
        return Some("Español (Trinidad y Tobago)");
    }
    if chars_are(c, "es-ury") {
        return Some("Español (Uruguay)");
    }
    if chars_are(c, "es-usa") {
        return Some("Español (Estados Unidos)");
    }
    None
}

/// The name of a language as spoken in a country, by lowercase `lang-country` code (part 14 of 18).
pub open spec fn country_language_name_13(c: Seq<char>) -> Option<Seq<char>> {
    if c == "es-vct"@ {
        Some("Español (San Vicente y las Granadinas)"@)
    } else if c == "es-ven"@ {
        Some("Español (Venezuela)"@)
    } else if c == "es-vgb"@ {
        Some("Español (Islas Vírgenes Británicas)"@)
    } else if c == "es-vir"@ {
        Some("Español (Islas Vírgenes de los Estados Unidos)"@)
    } else if c == "et-est"@ {
        Some("Eesti (Eesti)"@)
    } else if c == "eu-esp"@ {
        Some("Euskara (Espainia)"@)
    } else if c == "fa-afg"@ {
        Some("فارسی (افغانستان)"@)
    } else if c == "fa-irn"@ {
        Some("فارسی (ایران)"@)
    } else if c == "ff-bfa"@ {
        Some("Fulfulde (Burkina Faso)"@)
    } else if c == "ff-cmr"@ {
        Some("Fulfulde (Cameroun)"@)
    } else if c == "ff-gha"@ {
        Some("Fulfulde (Ghana)"@)
    } else if c == "ff-gin"@ {
        Some("Fulfulde (Guinée)"@)
    } else if c == "ff-gmb"@ {
        Some("Fulfulde (Gambia)"@)
    } else if c == "ff-gnb"@ {
        Some("Fulfulde (Guinée-Bissau)"@)
    } else if c == "ff-lbr"@ {
        Some("Fulfulde (Libéria)"@)
    } else if c == "ff-mrt"@ {
        Some("Fulfulde (Mauritanie)"@)
    } else if c == "ff-ner"@ {
        Some("Fulfulde (Niger)"@)
    } else if c == "ff-nga"@ {
        Some("Fulfulde (Nigeria)"@)
    } else if c == "ff-sen"@ {
        Some("Fulfulde (Sénégal)"@)
    } else if c == "ff-sle"@ {
        Some("Fulfulde (Sierra Leone)"@)
    } else if c == "fi-fin"@ {
        Some("suomi (Suomi)"@)
    } else if c == "fo-dnk"@ {
        Some("Føroyskt (Danmark)"@)
    } else if c == "fo-fro"@ {
        Some("Føroyskt (Føroyar)"@)
    } else if c == "fr-bdi"@ {
        Some("Français (Burundi)"@)
    } else if c == "fr-bel"@ {
        Some("Français (Belgique)"@)
    } else if c == "fr-ben"@ {
        Some("Français (Bénin)"@)
    } else if c == "fr-bfa"@ {
        Some("Français (Burkina Faso)"@)
    } else if c == "fr-blm"@ {
        Some("Français (Saint-Barthélemy)"@)
    } else if c == "fr-caf"@ {
        Some("Français (République centrafricaine)"@)
    } else if c == "fr-can"@ {
        Some("Français (Canada)"@)
    } else if c == "fr-che"@ {
        Some("Français (Suisse)"@)
    } else if c == "fr-civ"@ {
        Some("Français (Côte d'Ivoire)"@)
    } else if c == "fr-cmr"@ {
        Some("Français (Cameroun)"@)
    } else if c == "fr-cod"@ {
        Some("Français (Congo - Kinshasa)"@)
    } else if c == "fr-cog"@ {
        Some("Français (Congo - Brazzaville)"@)
    } else if c == "fr-com"@ {
        Some("Français (Comores)"@)
    } else if c == "fr-dji"@ {
        Some("Français (Djibouti)"@)
    } else if c == "fr-dza"@ {
        Some("Français (Algérie)"@)
    } else if c == "fr-fra"@ {
        Some("Français (France)"@)
    } else if c == "fr-gin"@ {
        Some("Français (Guinée)"@)
    } else if c == "fr-gab"@ {
        Some("Français (Gabon)"@)
    } else if c == "fr-glp"@ {
        Some("Français (Guadeloupe)"@)
    } else if c == "fr-gnq"@ {
        Some("Français (Guinée équatoriale)"@)
    } else if c == "fr-guf"@ {
        Some("Français (Guyane française)"@)
    } else if c == "fr-hti"@ {
        Some("Français (Haïti)"@)
    } else if c == "fr-lux"@ {
        Some("Français (Luxembourg)"@)
    } else if c == "fr-maf"@ {
        Some("Français (Saint-Martin)"@)
    } else if c == "fr-mar"@ {
        Some("Français (Maroc)"@)
    } else if c == "fr-mco"@ {
        Some("Français (Monaco)"@)
    } else if c == "fr-mdg"@ {
        Some("Français (Madagascar)"@)
    } else if c == "fr-mli"@ {
        Some("Français (Mali)"@)
    } else if c == "fr-mrt"@ {
        Some("Français (Mauritanie)"@)
    } else if c == "fr-mtq"@ {
        Some("Français (Martinique)"@)
    } else if c == "fr-mus"@ {
        Some("Français (Maurice)"@)
    } else if c == "fr-myt"@ {
        Some("Français (Mayotte)"@)
    } else if c == "fr-ncl"@ {
        Some("Français (Nouvelle-Calédonie)"@)
    } else if c == "fr-ner"@ {
        Some("Français (Niger)"@)
    } else if c == "fr-pyf"@ {
        Some("Français (Polynésie française)"@)
    } else if c == "fr-reu"@ {
        Some("Français (Réunion)"@)
    } else if c == "fr-rwa"@ {
        Some("Français (Rwanda)"@)
    } else {
        None
    }
}

fn country_language_name_part_13(c: &[char]) -> (r: Option<&'static str>)
    ensures
        match r {
            Some(n) => country_language_name_13(c@) == Some(n@),
            None => country_language_name_13(c@) is None,
        },
{
    if chars_are(c, "es-vct") {
        return Some("Español (San Vicente y las Granadinas)");
    }
    if chars_are(c, "es-ven") {
        return Some("Español (Venezuela)");
    }
    if chars_are(c, "es-vgb") {
        return Some("Español (Islas Vírgenes Británicas)");
    }
    if chars_are(c, "es-vir") {
        return Some("Español (Islas Vírgenes de los Estados Unidos)");
    }
    if chars_are(c, "et-est") {
        return Some("Eesti (Eesti)");
    }
    if chars_are(c, "eu-esp") {
        return Some("Euskara (Espainia)");
    }
    if chars_are(c, "fa-afg") {
        return Some("فارسی (افغانستان)");
    }
    if chars_are(c, "fa-irn") {
        return Some("فارسی (ایران)");
    }
    if chars_are(c, "ff-bfa") {
        return Some("Fulfulde (Burkina Faso)");
    }
    if chars_are(c, "ff-cmr") {
        return Some("Fulfulde (Cameroun)");
    }
    if chars_are(c, "ff-gha") {
        return Some("Fulfulde (Ghana)");
    }
    if chars_are(c, "ff-gin") {
        return Some("Fulfulde (Guinée)");
    }
    if chars_are(c, "ff-gmb") {
        return Some("Fulfulde (Gambia)");
    }
    if chars_are(c, "ff-gnb") {
        return Some("Fulfulde (Guinée-Bissau)");
    }
    if chars_are(c, "ff-lbr") {
        return Some("Fulfulde (Libéria)");
    }
    if chars_are(c, "ff-mrt") {
        return Some("Fulfulde (Mauritanie)");
    }
    if chars_are(c, "ff-ner") {
        return Some("Fulfulde (Niger)");
    }
    if chars_are(c, "ff-nga") {
        return Some("Fulfulde (Nigeria)");
    }
    if chars_are(c, "ff-sen") {
        return Some("Fulfulde (Sénégal)");
    }
    if chars_are(c, "ff-sle") {
        return Some("Fulfulde (Sierra Leone)");
    }
    if chars_are(c, "fi-fin") {
        return Some("suomi (Suomi)");
    }
    if chars_are(c, "fo-dnk") {
        return Some("Føroyskt (Danmark)");
    }
    if chars_are(c, "fo-fro") {
        return Some("Føroyskt (Føroyar)");
    }
    if chars_are(c, "fr-bdi") {
        return Some("Français (Burundi)");
    }
    if chars_are(c, "fr-bel") {
        return Some("Français (Belgique)");
    }
    if chars_are(c, "fr-ben") {
        return Some("Français (Bénin)");
    }
    if chars_are(c, "fr-bfa") {
        return Some("Français (Burkina Faso)");
    }
    if chars_are(c, "fr-blm") {
        return Some("Français (Saint-Barthélemy)");
    }
    if chars_are(c, "fr-caf") {
        return Some("Français (République centrafricaine)");
    }
    if chars_are(c, "fr-can") {
        return Some("Français (Canada)");
    }
    if chars_are(c, "fr-che") {
        return Some("Français (Suisse)");
    }
    if chars_are(c, "fr-civ") {
        return Some("Français (Côte d'Ivoire)");
    }
    if chars_are(c, "fr-cmr") {
        return Some("Français (Cameroun)");
    }
    if chars_are(c, "fr-cod") {
        return Some("Français (Congo - Kinshasa)");
    }
    if chars_are(c, "fr-cog") {
        return Some("Français (Congo - Brazzaville)");
    }
    if chars_are(c, "fr-com") {
        return Some("Français (Comores)");
    }
    if chars_are(c, "fr-dji") {
        return Some("Français (Djibouti)");
    }
    if chars_are(c, "fr-dza") {
        return Some("Français (Algérie)");
    }
    if chars_are(c, "fr-fra") {
        return Some("Français (France)");
    }
    if chars_are(c, "fr-gin") {
        return Some("Français (Guinée)");
    }
    if chars_are(c, "fr-gab") {
        return Some("Français (Gabon)");
    }
    if chars_are(c, "fr-glp") {
        return Some("Français (Guadeloupe)");
    }
    if chars_are(c, "fr-gnq") {
        return Some("Français (Guinée équatoriale)");
    }
    if chars_are(c, "fr-guf") {
        return Some("Français (Guyane française)");
    }
    if chars_are(c, "fr-hti") {
        return Some("Français (Haïti)");
    }
    if chars_are(c, "fr-lux") {
        return Some("Français (Luxembourg)");
    }
    if chars_are(c, "fr-maf") {
        return Some("Français (Saint-Martin)");
    }
    if chars_are(c, "fr-mar") {
        return Some("Français (Maroc)");
    }
    if chars_are(c, "fr-mco") {
        return Some("Français (Monaco)");
    }
    if chars_are(c, "fr-mdg") {
        return Some("Français (Madagascar)");
    }
    if chars_are(c, "fr-mli") {
        return Some("Français (Mali)");
    }
    if chars_are(c, "fr-mrt") {
        return Some("Français (Mauritanie)");
    }
    if chars_are(c, "fr-mtq") {
        return Some("Français (Martinique)");
    }
    if chars_are(c, "fr-mus") {
        return Some("Français (Maurice)");
    }
    if chars_are(c, "fr-myt") {
        return Some("Français (Mayotte)");
    }
    if chars_are(c, "fr-ncl") {
        return Some("Français (Nouvelle-Calédonie)");
    }
    if chars_are(c, "fr-ner") {
        return Some("Français (Niger)");
    }
    if chars_are(c, "fr-pyf") {
        return Some("Français (Polynésie française)");
    }
    if chars_are(c, "fr-reu") {
        return Some("Français (Réunion)");
    }
    if chars_are(c, "fr-rwa") {
        return Some("Français (Rwanda)");
    }
    None
}

/// The name of a language as spoken in a country, by lowercase `lang-country` code (part 15 of 18).
pub open spec fn country_language_name_14(c: Seq<char>) -> Option<Seq<char>> {
    if c == "fr-sen"@ {
        Some("Français (Sénégal)"@)
    } else if c == "fr-spm"@ {
        Some("Français (Saint-Pierre-et-Miquelon)"@)
    } else if c == "fr-syc"@ {
        Some("Français (Seychelles)"@)
    } else if c == "fr-syr"@ {
        Some("Français (Syrie)"@)
    } else if c == "fr-tcd"@ {
        Some("Français (Tchad)"@)
    } else if c == "fr-tgo"@ {
        Some("Français (Togo)"@)
    } else if c == "fr-tun"@ {
        Some("Français (Tunisie)"@)
    } else if c == "fr-vut"@ {
        Some("Français (Vanuatu)"@)
    } else if c == "fr-wlf"@ {
        Some("Français (Wallis-et-Futuna)"@)
    } else if c == "fy-nld"@ {
        Some("Frysk (Nederlân)"@)
    } else if c == "ga-irl"@ {
        Some("Gaeilge (Éire)"@)
    } else if c == "gd-gbr"@ {
        Some("Gàidhlig (An Rìoghachd Aonaichte)"@)
    } else if c == "gl-esp"@ {
        Some("Galego (España)"@)
    } else if c == "gn-pry"@ {
        Some("Avañe'ẽ (Paraguái)"@)
    } else if c == "gu-ind"@ {
        Some("ગુજરાતી (ભારત)"@)
    } else if c == "gv-imn"@ {
        Some("Gaelg (Ellan Vannin)"@)
    } else if c == "ha-gha"@ {
        Some("Hausa (Ghana)"@)
    } else if c == "ha-ner"@ {
        Some("Hausa (Nijar)"@)
    } else if c == "ha-nga"@ {
        Some("Hausa (Najeriya)"@)
    } else if c == "he-isr"@ {
        Some("עברית (ישראל)"@)
    } else if c == "hi-ind"@ {
        Some("हिन्दी (भारत)"@)
    } else if c == "hr-bih"@ {
        Some("Hrvatski (Bosna i Hercegovina)"@)
    } else if c == "hr-hrv"@ {
        Some("Hrvatski (Hrvatska)"@)
    } else if c == "hu-hun"@ {
        Some("Magyar (Magyarország)"@)
    } else if c == "hy-arm"@ {
        Some("Հայերէն (Հայաստան)"@)
    } else if c == "id-idn"@ {
        Some("Bahasa Indonesia (Indonesia)"@)
    } else if c == "ig-nga"@ {
        Some("Igbo (Nigeria)"@)
    } else if c == "ii-chn"@ {
        Some("ꆈꌠꉙ (中国)"@)
    } else if c == "is-isl"@ {
        Some("Íslenska (Ísland)"@)
    } else if c == "it-che"@ {
        Some("Italiano (Svizzera)"@)
    } else if c == "it-ita"@ {
        Some("Italiano (Italia)"@)
    } else if c == "it-smr"@ {
        Some("Italiano (San Marino)"@)
    } else if c == "it-vat"@ {
        Some("Italiano (Città del Vaticano)"@)
    } else if c == "ia-001"@ {
        Some("Interlingua"@)
    } else if c == "io-001"@ {
        Some("Ido"@)
    } else if c == "iu-can"@ {
        Some("ᐃᓄᒃᑎᑐᑦ (Canada)"@)
    } else if c == "ja-jpn"@ {
        Some("日本語 (日本)"@)
    } else if c == "jv-idn"@ {
        Some("Basa Jawa (Indonesia)"@)
    } else if c == "ka-geo"@ {
        Some("ქართული (საქართველო)"@)
    } else if c == "ki-ken"@ {
        Some("Gĩkũyũ (Kenya)"@)
    } else if c == "kk-kaz"@ {
        Some("Қазақ тілі (Қазақстан)"@)
    } else if c == "kl-grl"@ {
        Some("Kalaallisut (Kalaallit Nunaat)"@)
    } else if c == "km-khm"@ {
        Some("ភាសាខ្មែរ (កម្ពុជា)"@)
    } else if c == "kn-ind"@ {
        Some("ಕನ್ನಡ (ಭಾರತ)"@)
    } else if c == "ko-prk"@ {
        Some("한국어(북한)"@)
    } else if c == "ks-ind"@ {
        Some("कश्मीरी (भारत)"@)
    } else if c == "ku-tur"@ {
        Some("Kurdî (Tirkiye)"@)
    } else if c == "kw-gbr"@ {
        Some("Cornish (United Kingdom)"@)
    } else if c == "ky-kgz"@ {
        Some("Кыргызстандык (Кыргызстан)"@)
    } else if c == "lb-lux"@ {
        Some("Lëtzebuergesch (Lëtzebuerg)"@)
    } else if c == "lg-uga"@ {
        Some("Luganda (Yuganda)"@)
    } else if c == "ln-ago"@ {
        Some("Lingála (Angola)"@)
    } else if c == "ln-caf"@ {
        Some("Lingála (République centrafricaine)"@)
    } else if c == "ln-cog"@ {
        Some("Lingála (Congo)"@)
    } else if c == "lo-lao"@ {
        Some("ພາສາລາວ (ລາວ)"@)
    } else if c == "lt-ltu"@ {
        Some("Lietuvių kalba (Lietuva)"@)
    } else if c == "lu-cod"@ {
        Some("Kiluba (Congo)"@)
    } else if c == "lv-lva"@ {
        Some("Latviešu valoda (Latvija)"@)
    } else if c == "mg-mdg"@ {
        Some("Malagasy (Madagascar)"@)
    } else if c == "mi-nzl"@ {
        Some("Māori (Aotearoa)"@)
    } else {
        None
    }
}

fn country_language_name_part_14(c: &[char]) -> (r: Option<&'static str>)
    ensures
        match r {
            Some(n) => country_language_name_14(c@) == Some(n@),
            None => country_language_name_14(c@) is None,
        },
{
    if chars_are(c, "fr-sen") {
        return Some("Français (Sénégal)");
    }
    if chars_are(c, "fr-spm") {
        return Some("Français (Saint-Pierre-et-Miquelon)");
    }
    if chars_are(c, "fr-syc") {
        return Some("Français (Seychelles)");
    }
    if chars_are(c, "fr-syr") {
        return Some("Français (Syrie)");
    }
    if chars_are(c, "fr-tcd") {
        return Some("Français (Tchad)");
    }
    if chars_are(c, "fr-tgo") {
        return Some("Français (Togo)");
    }
    if chars_are(c, "fr-tun") {
        return Some("Français (Tunisie)");
    }
    if chars_are(c, "fr-vut") {
        return Some("Français (Vanuatu)");
    }
    if chars_are(c, "fr-wlf") {
        return Some("Français (Wallis-et-Futuna)");
    }
    if chars_are(c, "fy-nld") {
        return Some("Frysk (Nederlân)");
    }
    if chars_are(c, "ga-irl") {
        return Some("Gaeilge (Éire)");
    }
    if chars_are(c, "gd-gbr") {
        return Some("Gàidhlig (An Rìoghachd Aonaichte)");
    }
    if chars_are(c, "gl-esp") {
        return Some("Galego (España)");
    }
    if chars_are(c, "gn-pry") {
        return Some("Avañe'ẽ (Paraguái)");
    }
    if chars_are(c, "gu-ind") {
        return Some("ગુજરાતી (ભારત)");
    }
    if chars_are(c, "gv-imn") {
        return Some("Gaelg (Ellan Vannin)");
    }
    if chars_are(c, "ha-gha") {
        return Some("Hausa (Ghana)");
    }
    if chars_are(c, "ha-ner") {
        return Some("Hausa (Nijar)");
    }
    if chars_are(c, "ha-nga") {
        return Some("Hausa (Najeriya)");
    }
    if chars_are(c, "he-isr") {
        return Some("עברית (ישראל)");
    }
    if chars_are(c, "hi-ind") {
        return Some("हिन्दी (भारत)");
    }
    if chars_are(c, "hr-bih") {
        return Some("Hrvatski (Bosna i Hercegovina)");
    }
    if chars_are(c, "hr-hrv") {
        return Some("Hrvatski (Hrvatska)");
    }
    if chars_are(c, "hu-hun") {
        return Some("Magyar (Magyarország)");
    }
    if chars_are(c, "hy-arm") {
        return Some("Հայերէն (Հայաստան)");
    }
    if chars_are(c, "id-idn") {
        return Some("Bahasa Indonesia (Indonesia)");
    }
    if chars_are(c, "ig-nga") {
        return Some("Igbo (Nigeria)");
    }
    if chars_are(c, "ii-chn") {
        return Some("ꆈꌠꉙ (中国)");
    }
    if chars_are(c, "is-isl") {
        return Some("Íslenska (Ísland)");
    }
    if chars_are(c, "it-che") {
        return Some("Italiano (Svizzera)");
    }
    if chars_are(c, "it-ita") {
        return Some("Italiano (Italia)");
    }
    if chars_are(c, "it-smr") {
        return Some("Italiano (San Marino)");
    }
    if chars_are(c, "it-vat") {
        return Some("Italiano (Città del Vaticano)");
    }
    if chars_are(c, "ia-001") {
        return Some("Interlingua");
    }
    if chars_are(c, "io-001") {
        return Some("Ido");
    }
    if chars_are(c, "iu-can") {
        return Some("ᐃᓄᒃᑎᑐᑦ (Canada)");
    }
    if chars_are(c, "ja-jpn") {
        return Some("日本語 (日本)");
    }
    if chars_are(c, "jv-idn") {
        return Some("Basa Jawa (Indonesia)");
    }
    if chars_are(c, "ka-geo") {
        return Some("ქართული (საქართველო)");
    }
    if chars_are(c, "ki-ken") {
        return Some("Gĩkũyũ (Kenya)");
    }
    if chars_are(c, "kk-kaz") {
        return Some("Қазақ тілі (Қазақстан)");
    }
    if chars_are(c, "kl-grl") {
        return Some("Kalaallisut (Kalaallit Nunaat)");
    }
    if chars_are(c, "km-khm") {
        return Some("ភាសាខ្មែរ (កម្ពុជា)");
    }
    if chars_are(c, "kn-ind") {
        return Some("ಕನ್ನಡ (ಭಾರತ)");
    }
    if chars_are(c, "ko-prk") {
        return Some("한국어(북한)");
    }
    if chars_are(c, "ks-ind") {
        return Some("कश्मीरी (भारत)");
    }
    if chars_are(c, "ku-tur") {
        return Some("Kurdî (Tirkiye)");
    }
    if chars_are(c, "kw-gbr") {
        return Some("Cornish (United Kingdom)");
    }
    if chars_are(c, "ky-kgz") {
        return Some("Кыргызстандык (Кыргызстан)");
    }
    if chars_are(c, "lb-lux") {
        return Some("Lëtzebuergesch (Lëtzebuerg)");
    }
    if chars_are(c, "lg-uga") {
        return Some("Luganda (Yuganda)");
    }
    if chars_are(c, "ln-ago") {
        return Some("Lingála (Angola)");
    }
    if chars_are(c, "ln-caf") {
        return Some("Lingála (République centrafricaine)");
    }
    if chars_are(c, "ln-cog") {
        return Some("Lingála (Congo)");
    }
    if chars_are(c, "lo-lao") {
        return Some("ພາສາລາວ (ລາວ)");
    }
    if chars_are(c, "lt-ltu") {
        return Some("Lietuvių kalba (Lietuva)");
    }
    if chars_are(c, "lu-cod") {
        return Some("Kiluba (Congo)");
    }
    if chars_are(c, "lv-lva") {
        return Some("Latviešu valoda (Latvija)");
    }
    if chars_are(c, "mg-mdg") {
        return Some("Malagasy (Madagascar)");
    }
    if chars_are(c, "mi-nzl") {
        return Some("Māori (Aotearoa)");
    }
    None
}

/// The name of a language as spoken in a country, by lowercase `lang-country` code (part 16 of 18).
pub open spec fn country_language_name_15(c: Seq<char>) -> Option<Seq<char>> {
    if c == "mk-mkd"@ {
        Some("Македонски (Македонија)"@)
    } else if c == "ml-ind"@ {
        Some("മലയാളം (ഭാരതം)"@)
    } else if c == "mn-mng"@ {
        Some("Монгол хэл (Монгол)"@)
    } else if c == "mr-ind"@ {
        Some("मराठी (भारत)"@)
    } else if c == "ms-brn"@ {
        Some("Bahasa Melayu (Brunei)"@)
    } else if c == "ms-sgp"@ {
        Some("Bahasa Melayu (Singapura)"@)
    } else if c == "ms-mys"@ {
        Some("Bahasa Melayu (Malaysia)"@)
    } else if c == "mt-mlt"@ {
        Some("Malti (Malta)"@)
    } else if c == "my-mmr"@ {
        Some("ဗမာစာ (မြန်မာ)"@)
    } else if c == "nb-nor"@ {
        Some("Norsk bokmål (Norge)"@)
    } else if c == "nb-sjm"@ {
        Some("Norsk bokmål (Svalbard og Jan Mayen)"@)
    } else if c == "nd-zwe"@ {
        Some("isiNdebele (Zimbabwe)"@)
    } else if c == "ne-ind"@ {
        Some("नेपाली (भारत)"@)
    } else if c == "ne-npl"@ {
        Some("नेपाली (नेपाल)"@)
    } else if c == "nl-abw"@ {
        Some("Nederlands (Aruba)"@)
    } else if c == "nl-bel"@ {
        Some("Nederlands (België)"@)
    } else if c == "nl-bes"@ {
        Some("Nederlands (Caribisch Nederland)"@)
    } else if c == "nl-cuw"@ {
        Some("Nederlands (Curaçao)"@)
    } else if c == "nl-nld"@ {
        Some("Nederlands (Nederland)"@)
    } else if c == "nl-sur"@ {
        Some("Nederlands (Suriname)"@)
    } else if c == "nl-sxm"@ {
        Some("Nederlands (Sint Maarten)"@)
    } else if c == "nn-nor"@ {
        Some("Norsk nynorsk (Noreg)"@)
    } else if c == "nr-zaf"@ {
        Some("isiNdebele (South Africa)"@)
    } else if c == "ny-mwi"@ {
        Some("Chichewa (Malawi)"@)
    } else if c == "oc-fra"@ {
        Some("Occitan (France)"@)
    } else if c == "om-eth"@ {
        Some("Afaan Oromoo (Itoophiyaa)"@)
    } else if c == "om-ken"@ {
        Some("Afaan Oromoo (Keeniyaa)"@)
    } else if c == "or-ind"@ {
        Some("ଓଡ଼ିଆ (ଭାରତ)"@)
    } else if c == "os-geo"@ {
        Some("Ирон æвзаг (Росси)"@)
    } else if c == "os-rus"@ {
        Some("Ирон æвзаг (Росси)"@)
    } else if c == "pa-ind"@ {
        Some("ਪੰਜਾਬੀ (ਭਾਰਤ)"@)
    } else if c == "pa-pak"@ {
        Some("پنجابی (پاکستان)"@)
    } else if c == "pl-pol"@ {
        Some("Polski (Polska)"@)
    } else if c == "ps-afg"@ {
        Some("پښتو (افغانستان)"@)
    } else if c == "ps-pak"@ {
        Some("پښتو (پاکستان)"@)
    } else if c == "pt-ago"@ {
        Some("Português (Angola)"@)
    } else if c == "pt-bra"@ {
        Some("Português (Brasil)"@)
    } else if c == "pt-che"@ {
        Some("Português (Suíça)"@)
    } else if c == "pt-cpv"@ {
        Some("Português (Cabo Verde)"@)
    } else if c == "pt-fra"@ {
        Some("Português (França)"@)
    } else if c == "pt-gnb"@ {
        Some("Português (Guiné-Bissau)"@)
    } else if c == "pt-gnq"@ {
        Some("Português (Guiné Equatorial)"@)
    } else if c == "pt-lux"@ {
        Some("Português (Luxemburgo)"@)
    } else if c == "pt-mac"@ {
        Some("Português (Macau)"@)
    } else if c == "pt-moz"@ {
        Some("Português (Moçambique)"@)
    } else if c == "pt-prt"@ {
        Some("Português (Portugal)"@)
    } else if c == "pt-stp"@ {
        Some("Português (São Tomé e Príncipe)"@)
    } else if c == "pt-tls"@ {
        Some("Português (Timor-Leste)"@)
    } else if c == "qu-bol"@ {
        Some("Runa simi (Bolivia)"@)
    } else if c == "qu-ecu"@ {
        Some("Runa simi (Ecuador)"@)
    } else if c == "qu-per"@ {
        Some("Runa simi (Perú)"@)
    } else if c == "ro-mda"@ {
        Some("Română (Republica Moldova)"@)
    } else if c == "ro-rou"@ {
        Some("Română (România)"@)
    } else if c == "rn-bdi"@ {
        Some("Ikirundi (Burundi)"@)
    } else if c == "ru-blr"@ {
        Some("Русский язык (Беларусь)"@)
    } else if c == "ru-kaz"@ {
        Some("Русский язык (Казахстан)"@)
    } else if c == "ru-kgz"@ {
        Some("Русский язык (Кыргызстан)"@)
    } else if c == "ru-mda"@ {
        Some("Русский язык (Молдова)"@)
    } else if c == "ru-rus"@ {
        Some("Русский язык (Россия)"@)
    } else if c == "ru-ukr"@ {
        Some("Русский язык (Украина)"@)
    } else {
        None
    }
}

fn country_language_name_part_15(c: &[char]) -> (r: Option<&'static str>)
    ensures
        match r {
            Some(n) => country_language_name_15(c@) == Some(n@),
            None => country_language_name_15(c@) is None,
        },
{
    if chars_are(c, "mk-mkd") {
        return Some("Македонски (Македонија)");
    }
    if chars_are(c, "ml-ind") {
        return Some("മലയാളം (ഭാരതം)");
    }
    if chars_are(c, "mn-mng") {
        return Some("Монгол хэл (Монгол)");
    }
    if chars_are(c, "mr-ind") {
        return Some("मराठी (भारत)");
    }
    if chars_are(c, "ms-brn") {
        return Some("Bahasa Melayu (Brunei)");
    }
    if chars_are(c, "ms-sgp") {
        return Some("Bahasa Melayu (Singapura)");
    }
    if chars_are(c, "ms-mys") {
        return Some("Bahasa Melayu (Malaysia)");
    }
    if chars_are(c, "mt-mlt") {
        return Some("Malti (Malta)");
    }
    if chars_are(c, "my-mmr") {
        return Some("ဗမာစာ (မြန်မာ)");
    }
    if chars_are(c, "nb-nor") {
        return Some("Norsk bokmål (Norge)");
    }
    if chars_are(c, "nb-sjm") {
        return Some("Norsk bokmål (Svalbard og Jan Mayen)");
    }
    if chars_are(c, "nd-zwe") {
        return Some("isiNdebele (Zimbabwe)");
    }
    if chars_are(c, "ne-ind") {
        return Some("नेपाली (भारत)");
    }
    if chars_are(c, "ne-npl") {
        return Some("नेपाली (नेपाल)");
    }
    if chars_are(c, "nl-abw") {
        return Some("Nederlands (Aruba)");
    }
    if chars_are(c, "nl-bel") {
        return Some("Nederlands (België)");
    }
    if chars_are(c, "nl-bes") {
        return Some("Nederlands (Caribisch Nederland)");
    }
    if chars_are(c, "nl-cuw") {
        return Some("Nederlands (Curaçao)");
    }
    if chars_are(c, "nl-nld") {
        return Some("Nederlands (Nederland)");
    }
    if chars_are(c, "nl-sur") {
        return Some("Nederlands (Suriname)");
    }
    if chars_are(c, "nl-sxm") {
        return Some("Nederlands (Sint Maarten)");
    }
    if chars_are(c, "nn-nor") {
        return Some("Norsk nynorsk (Noreg)");
    }
    if chars_are(c, "nr-zaf") {
        return Some("isiNdebele (South Africa)");
    }
    if chars_are(c, "ny-mwi") {
        return Some("Chichewa (Malawi)");
    }
    if chars_are(c, "oc-fra") {
        return Some("Occitan (France)");
    }
    if chars_are(c, "om-eth") {
        return Some("Afaan Oromoo (Itoophiyaa)");
    }
    if chars_are(c, "om-ken") {
        return Some("Afaan Oromoo (Keeniyaa)");
    }
    if chars_are(c, "or-ind") {
        return Some("ଓଡ଼ିଆ (ଭାରତ)");
    }
    if chars_are(c, "os-geo") {
        return Some("Ирон æвзаг (Росси)");
    }
    if chars_are(c, "os-rus") {
        return Some("Ирон æвзаг (Росси)");
    }
    if chars_are(c, "pa-ind") {
        return Some("ਪੰਜਾਬੀ (ਭਾਰਤ)");
    }
    if chars_are(c, "pa-pak") {
        return Some("پنجابی (پاکستان)");
    }
    if chars_are(c, "pl-pol") {
        return Some("Polski (Polska)");
    }
    if chars_are(c, "ps-afg") {
        return Some("پښتو (افغانستان)");
    }
    if chars_are(c, "ps-pak") {
        return Some("پښتو (پاکستان)");
    }
    if chars_are(c, "pt-ago") {
        return Some("Português (Angola)");
    }
    if chars_are(c, "pt-bra") {
        return Some("Português (Brasil)");
    }
    if chars_are(c, "pt-che") {
        return Some("Português (Suíça)");
    }
    if chars_are(c, "pt-cpv") {
        return Some("Português (Cabo Verde)");
    }
    if chars_are(c, "pt-fra") {
        return Some("Português (França)");
    }
    if chars_are(c, "pt-gnb") {
        return Some("Português (Guiné-Bissau)");
    }
    if chars_are(c, "pt-gnq") {
        return Some("Português (Guiné Equatorial)");
    }
    if chars_are(c, "pt-lux") {
        return Some("Português (Luxemburgo)");
    }
    if chars_are(c, "pt-mac") {
        return Some("Português (Macau)");
    }
    if chars_are(c, "pt-moz") {
        return Some("Português (Moçambique)");
    }
    if chars_are(c, "pt-prt") {
        return Some("Português (Portugal)");
    }
    if chars_are(c, "pt-stp") {
        return Some("Português (São Tomé e Príncipe)");
    }
    if chars_are(c, "pt-tls") {
        return Some("Português (Timor-Leste)");
    }
    if chars_are(c, "qu-bol") {
        return Some("Runa simi (Bolivia)");
    }
    if chars_are(c, "qu-ecu") {
        return Some("Runa simi (Ecuador)");
    }
    if chars_are(c, "qu-per") {
        return Some("Runa simi (Perú)");
    }
    if chars_are(c, "ro-mda") {
        return Some("Română (Republica Moldova)");
    }
    if chars_are(c, "ro-rou") {
        return Some("Română (România)");
    }
    if chars_are(c, "rn-bdi") {
        return Some("Ikirundi (Burundi)");
    }
    if chars_are(c, "ru-blr") {
        return Some("Русский язык (Беларусь)");
    }
    if chars_are(c, "ru-kaz") {
        return Some("Русский язык (Казахстан)");
    }
    if chars_are(c, "ru-kgz") {
        return Some("Русский язык (Кыргызстан)");
    }
    if chars_are(c, "ru-mda") {
        return Some("Русский язык (Молдова)");
    }
    if chars_are(c, "ru-rus") {
        return Some("Русский язык (Россия)");
    }
    if chars_are(c, "ru-ukr") {
        return Some("Русский язык (Украина)");
    }
    None
}

/// The name of a language as spoken in a country, by lowercase `lang-country` code (part 17 of 18).
pub open spec fn country_language_name_16(c: Seq<char>) -> Option<Seq<char>> {
    if c == "rw-rwa"@ {
        Some("Kinyarwanda (Rwanda)"@)
    } else if c == "sa-ind"@ {
        Some("संस्कृतम् (भारतम्)"@)
    } else if c == "sa-ita"@ {
        Some("संस्कृतम् (इटली)"@)
    } else if c == "sd-pak"@ {
        Some("سنڌي (پاڪستان)"@)
    } else if c == "se-fin"@ {
        Some("Davvisámegiella (Suopma)"@)
    } else if c == "se-nor"@ {
        Some("Davvisámegiella (Norga)"@)
    } else if c == "se-swe"@ {
        Some("Davvisámegiella (Ruoŧŧa)"@)
    } else if c == "sg-caf"@ {
        Some("Sängö (République centrafricaine)"@)
    } else if c == "sk-svk"@ {
        Some("Slovenčina (Slovenská republika)"@)
    } else if c == "si-lka"@ {
        Some("සිංහල (ශ්‍රී ලංකා)"@)
    } else if c == "sl-svn"@ {
        Some("Slovenščina (Slovenija)"@)
    } else if c == "sn-zwe"@ {
        Some("chiShona (Zimbabwe)"@)
    } else if c == "so-eth"@ {
        Some("Soomaaliga (Itoobiya)"@)
    } else if c == "so-ken"@ {
        Some("Soomaaliga (Kenya)"@)
    } else if c == "so-som"@ {
        Some("Soomaaliga (Soomaaliya)"@)
    } else if c == "sq-alb"@ {
        Some("Shqip (Shqipëri)"@)
    } else if c == "sq-mkd"@ {
        Some("Shqip (Maqedoni)"@)
    } else if c == "sq-xkk"@ {
        Some("Shqip (Kosovë)"@)
    } else if c == "sr-srb"@ {
        Some("Српски (Србија)"@)
    } else if c == "st-lso"@ {
        Some("Sesotho (Lesotho)"@)
    } else if c == "st-zaf"@ {
        Some("Sesotho (South Africa)"@)
    } else if c == "sr-bih"@ {
        Some("Српски (Босна и Херцеговина)"@)
    } else if c == "sr-mne"@ {
        Some("Српски (Црна Гора)"@)
    } else if c == "sr-xkk"@ {
        Some("Српски (Косово)"@)
    } else if c == "ss-swz"@ {
        Some("SiSwati (Swaziland)"@)
    } else if c == "ss-zaf"@ {
        Some("SiSwati (South Africa)"@)
    } else if c == "sv-ala"@ {
        Some("Svenska (Åland)"@)
    } else if c == "sv-fin"@ {
        Some("Svenska (Finland)"@)
    } else if c == "sw-cod"@ {
        Some("Kiswahili (Jamhuri ya Kidemokrasia ya Kongo)"@)
    } else if c == "sw-ken"@ {
        Some("Kiswahili (Kenya)"@)
    } else if c == "sw-tza"@ {
        Some("Kiswahili (Tanzania)"@)
    } else if c == "ta-ind"@ {
        Some("தமிழ் (இந்தியா)"@)
    } else if c == "ta-sgp"@ {
        Some("தமிழ் (சிங்கப்பூர்)"@)
    } else if c == "ta-lka"@ {
        Some("தமிழ் (இலங்கை)"@)
    } else if c == "ta-mys"@ {
        Some("தமிழ் (மலேசியா)"@)
    } else if c == "te-ind"@ {
        Some("తెలుగు (భారత)"@)
    } else if c == "tg-tjk"@ {
        Some("тоҷикӣ (Тоҷикистон)"@)
    } else if c == "th-tha"@ {
        Some("ไทย (ไทย)"@)
    } else if c == "ti-eri"@ {
        Some("ትግርኛ (ኤርትራ)"@)
    } else if c == "ti-eth"@ {
        Some("ትግርኛ (ኢትዮጵያ)"@)
    } else if c == "tk-tkm"@ {
        Some("Türkmen (Türkmenistan)"@)
    } else if c == "tn-bwa"@ {
        Some("Setswana (Botswana)"@)
    } else if c == "tn-zaf"@ {
        Some("Setswana (South Africa)"@)
    } else if c == "to-ton"@ {
        Some("faka Tonga (Tonga)"@)
    } else if c == "tr-cyp"@ {
        Some("Türkçe (Kıbrıs)"@)
    } else if c == "tr-tur"@ {
        Some("Türkçe (Türkiye)"@)
    } else if c == "ts-zaf"@ {
        Some("Xitsonga (South Africa)"@)
    } else if c == "tt-rus"@ {
        Some("Татар теле (Россия)"@)
    } else if c == "ug-chn"@ {
        Some("ئۇيغۇرچە (جۇڭگو)"@)
    } else if c == "uk-ukr"@ {
        Some("Українська (Україна)"@)
    } else if c == "ur-ind"@ {
        Some("اردو (بھارت)"@)
    } else if c == "ur-pak"@ {
        Some("اردو (پاکستان)"@)
    } else if c == "uz-afg"@ {
        Some("O'zbekiston (Afg'oniston)"@)
    } else if c == "uz-uzb"@ {
        Some("O'zbekiston (O'zbekiston)"@)
    } else if c == "ve-zaf"@ {
        Some("Tshivenḓa (South Africa)"@)
    } else if c == "vi-vnm"@ {
        Some("Tiếng Việt (Việt Nam)"@)
    } else if c == "wa-bel"@ {
        Some("Walon (Belgique)"@)
    } else if c == "wo-sen"@ {
        Some("Wolof (Sénégal)"@)
    } else if c == "xh-zaf"@ {
        Some("isiXhosa (South Africa)"@)
    } else if c == "yi-001"@ {
        Some("ייִדיש"@)
    } else {
        None
    }
}

fn country_language_name_part_16(c: &[char]) -> (r: Option<&'static str>)
    ensures
        match r {
            Some(n) => country_language_name_16(c@) == Some(n@),
            None => country_language_name_16(c@) is None,
        },
{
    if chars_are(c, "rw-rwa") {
        return Some("Kinyarwanda (Rwanda)");
    }
    if chars_are(c, "sa-ind") {
        return Some("संस्कृतम् (भारतम्)");
    }
    if chars_are(c, "sa-ita") {
        return Some("संस्कृतम् (इटली)");
    }
    if chars_are(c, "sd-pak") {
        return Some("سنڌي (پاڪستان)");
    }
    if chars_are(c, "se-fin") {
        return Some("Davvisámegiella (Suopma)");
    }
    if chars_are(c, "se-nor") {
        return Some("Davvisámegiella (Norga)");
    }
    if chars_are(c, "se-swe") {
        return Some("Davvisámegiella (Ruoŧŧa)");
    }
    if chars_are(c, "sg-caf") {
        return Some("Sängö (République centrafricaine)");
    }
    if chars_are(c, "sk-svk") {
        return Some("Slovenčina (Slovenská republika)");
    }
    if chars_are(c, "si-lka") {
        return Some("සිංහල (ශ්‍රී ලංකා)");
    }
    if chars_are(c, "sl-svn") {
        return Some("Slovenščina (Slovenija)");
    }
    if chars_are(c, "sn-zwe") {
        return Some("chiShona (Zimbabwe)");
    }
    if chars_are(c, "so-eth") {
        return Some("Soomaaliga (Itoobiya)");
    }
    if chars_are(c, "so-ken") {
        return Some("Soomaaliga (Kenya)");
    }
    if chars_are(c, "so-som") {
        return Some("Soomaaliga (Soomaaliya)");
    }
    if chars_are(c, "sq-alb") {
        return Some("Shqip (Shqipëri)");
    }
    if chars_are(c, "sq-mkd") {
        return Some("Shqip (Maqedoni)");
    }
    if chars_are(c, "sq-xkk") {
        return Some("Shqip (Kosovë)");
    }
    if chars_are(c, "sr-srb") {
        return Some("Српски (Србија)");
    }
    if chars_are(c, "st-lso") {
        return Some("Sesotho (Lesotho)");
    }
    if chars_are(c, "st-zaf") {
        return Some("Sesotho (South Africa)");
    }
    if chars_are(c, "sr-bih") {
        return Some("Српски (Босна и Херцеговина)");
    }
    if chars_are(c, "sr-mne") {
        return Some("Српски (Црна Гора)");
    }
    if chars_are(c, "sr-xkk") {
        return Some("Српски (Косово)");
    }
    if chars_are(c, "ss-swz") {
        return Some("SiSwati (Swaziland)");
    }
    if chars_are(c, "ss-zaf") {
        return Some("SiSwati (South Africa)");
    }
    if chars_are(c, "sv-ala") {
        return Some("Svenska (Åland)");
    }
    if chars_are(c, "sv-fin") {
        return Some("Svenska (Finland)");
    }
    if chars_are(c, "sw-cod") {
        return Some("Kiswahili (Jamhuri ya Kidemokrasia ya Kongo)");
    }
    if chars_are(c, "sw-ken") {
        return Some("Kiswahili (Kenya)");
    }
    if chars_are(c, "sw-tza") {
        return Some("Kiswahili (Tanzania)");
    }
    if chars_are(c, "ta-ind") {
        return Some("தமிழ் (இந்தியா)");
    }
    if chars_are(c, "ta-sgp") {
        return Some("தமிழ் (சிங்கப்பூர்)");
    }
    if chars_are(c, "ta-lka") {
        return Some("தமிழ் (இலங்கை)");
    }
    if chars_are(c, "ta-mys") {
        return Some("தமிழ் (மலேசியா)");
    }
    if chars_are(c, "te-ind") {
        return Some("తెలుగు (భారత)");
    }
    if chars_are(c, "tg-tjk") {
        return Some("тоҷикӣ (Тоҷикистон)");
    }
    if chars_are(c, "th-tha") {
        return Some("ไทย (ไทย)");
    }
    if chars_are(c, "ti-eri") {
        return Some("ትግርኛ (ኤርትራ)");
    }
    if chars_are(c, "ti-eth") {
        return Some("ትግርኛ (ኢትዮጵያ)");
    }
    if chars_are(c, "tk-tkm") {
        return Some("Türkmen (Türkmenistan)");
    }
    if chars_are(c, "tn-bwa") {
        return Some("Setswana (Botswana)");
    }
    if chars_are(c, "tn-zaf") {
        return Some("Setswana (South Africa)");
    }
    if chars_are(c, "to-ton") {
        return Some("faka Tonga (Tonga)");
    }
    if chars_are(c, "tr-cyp") {
        return Some("Türkçe (Kıbrıs)");
    }
    if chars_are(c, "tr-tur") {
        return Some("Türkçe (Türkiye)");
    }
    if chars_are(c, "ts-zaf") {
        return Some("Xitsonga (South Africa)");
    }
    if chars_are(c, "tt-rus") {
        return Some("Татар теле (Россия)");
    }
    if chars_are(c, "ug-chn") {
        return Some("ئۇيغۇرچە (جۇڭگو)");
    }
    if chars_are(c, "uk-ukr") {
        return Some("Українська (Україна)");
    }
    if chars_are(c, "ur-ind") {
        return Some("اردو (بھارت)");
    }
    if chars_are(c, "ur-pak") {
        return Some("اردو (پاکستان)");
    }
    if chars_are(c, "uz-afg") {
        return Some("O'zbekiston (Afg'oniston)");
    }
    if chars_are(c, "uz-uzb") {
        return Some("O'zbekiston (O'zbekiston)");
    }
    if chars_are(c, "ve-zaf") {
        return Some("Tshivenḓa (South Africa)");
    }
    if chars_are(c, "vi-vnm") {
        return Some("Tiếng Việt (Việt Nam)");
    }
    if chars_are(c, "wa-bel") {
        return Some("Walon (Belgique)");
    }
    if chars_are(c, "wo-sen") {
        return Some("Wolof (Sénégal)");
    }
    if chars_are(c, "xh-zaf") {
        return Some("isiXhosa (South Africa)");
    }
    if chars_are(c, "yi-001") {
        return Some("ייִדיש");
    }
    None
}

/// The name of a language as spoken in a country, by lowercase `lang-country` code (part 18 of 18).
pub open spec fn country_language_name_17(c: Seq<char>) -> Option<Seq<char>> {
    if c == "yo-ben"@ {
        Some("Yorùbá (Bénin)"@)
    } else if c == "yo-nga"@ {
        Some("Yorùbá (Nàìjíríà)"@)
    } else if c == "zh-chn"@ {
        Some("中文 (简体)"@)
    } else if c == "zh-hkg"@ {
        Some("中文 (香港)"@)
    } else if c == "zh-mac"@ {
        Some("中文 (澳門)"@)
    } else if c == "zh-twn"@ {
        Some("中文 (繁體)"@)
    } else if c == "zh-sgp"@ {
        Some("中文 (新加坡)"@)
    } else if c == "zu-zaf"@ {
        Some("isiZulu (South Africa)"@)
    } else if c == "kab-dz"@ {
        Some("θɐqβæjlɪθ (Asenǧaq n Dzayer)"@)
    } else if c == "cpp-bd"@ {
        Some("𑄌𑄋𑄴𑄟𑄳𑄦 𑄞𑄌𑄴 (Bangladesh)"@)
    } else if c == "kab-dza"@ {
        Some("θɐqβæjlɪθ (Asenǧaq n Dzayer)"@)
    } else if c == "cpp-bgd"@ {
        Some("𑄌𑄋𑄴𑄟𑄳𑄦 𑄞𑄌𑄴 (Bangladesh)"@)
    } else {
        None
    }
}

fn country_language_name_part_17(c: &[char]) -> (r: Option<&'static str>)
    ensures
        match r {
            Some(n) => country_language_name_17(c@) == Some(n@),
            None => country_language_name_17(c@) is None,
        },
{
    if chars_are(c, "yo-ben") {
        return Some("Yorùbá (Bénin)");
    }
    if chars_are(c, "yo-nga") {
        return Some("Yorùbá (Nàìjíríà)");
    }
    if chars_are(c, "zh-chn") {
        return Some("中文 (简体)");
    }
    if chars_are(c, "zh-hkg") {
        return Some("中文 (香港)");
    }
    if chars_are(c, "zh-mac") {
        return Some("中文 (澳門)");
    }
    if chars_are(c, "zh-twn") {
        return Some("中文 (繁體)");
    }
    if chars_are(c, "zh-sgp") {
        return Some("中文 (新加坡)");
    }
    if chars_are(c, "zu-zaf") {
        return Some("isiZulu (South Africa)");
    }
    if chars_are(c, "kab-dz") {
        return Some("θɐqβæjlɪθ (Asenǧaq n Dzayer)");
    }
    if chars_are(c, "cpp-bd") {
        return Some("𑄌𑄋𑄴𑄟𑄳𑄦 𑄞𑄌𑄴 (Bangladesh)");
    }
    if chars_are(c, "kab-dza") {
        return Some("θɐqβæjlɪθ (Asenǧaq n Dzayer)");
    }
    if chars_are(c, "cpp-bgd") {
        return Some("𑄌𑄋𑄴𑄟𑄳𑄦 𑄞𑄌𑄴 (Bangladesh)");
    }
    None
}

/// The name of a language as spoken in a country, by lowercase `lang-country` code.
pub open spec fn country_language_name(c: Seq<char>) -> Option<Seq<char>> {
    match country_language_name_0(c) { Some(n) => Some(n), None => match country_language_name_1(c) { Some(n) => Some(n), None => match country_language_name_2(c) { Some(n) => Some(n), None => match country_language_name_3(c) { Some(n) => Some(n), None => match country_language_name_4(c) { Some(n) => Some(n), None => match country_language_name_5(c) { Some(n) => Some(n), None => match country_language_name_6(c) { Some(n) => Some(n), None => match country_language_name_7(c) { Some(n) => Some(n), None => match country_language_name_8(c) { Some(n) => Some(n), None => match country_language_name_9(c) { Some(n) => Some(n), None => match country_language_name_10(c) { Some(n) => Some(n), None => match country_language_name_11(c) { Some(n) => Some(n), None => match country_language_name_12(c) { Some(n) => Some(n), None => match country_language_name_13(c) { Some(n) => Some(n), None => match country_language_name_14(c) { Some(n) => Some(n), None => match country_language_name_15(c) { Some(n) => Some(n), None => match country_language_name_16(c) { Some(n) => Some(n), None => country_language_name_17(c) } } } } } } } } } } } } } } } } }
}

/// The name of a language as spoken in a country, by lowercase `lang-country` code, looked up in the table.
pub fn country_language_name_lookup(c: &[char]) -> (r: Option<&'static str>)
    ensures
        match r {
            Some(n) => country_language_name(c@) == Some(n@),
            None => country_language_name(c@) is None,
        },
{
    if let Some(n) = country_language_name_part_0(c) {
        return Some(n);
    }
    if let Some(n) = country_language_name_part_1(c) {
        return Some(n);
    }
    if let Some(n) = country_language_name_part_2(c) {
        return Some(n);
    }
    if let Some(n) = country_language_name_part_3(c) {
        return Some(n);
    }
    if let Some(n) = country_language_name_part_4(c) {
        return Some(n);
    }
    if let Some(n) = country_language_name_part_5(c) {
        return Some(n);
    }
    if let Some(n) = country_language_name_part_6(c) {
        return Some(n);
    }
    if let Some(n) = country_language_name_part_7(c) {
        return Some(n);
    }
    if let Some(n) = country_language_name_part_8(c) {
        return Some(n);
    }
    if let Some(n) = country_language_name_part_9(c) {
        return Some(n);
    }
    if let Some(n) = country_language_name_part_10(c) {
        return Some(n);
    }
    if let Some(n) = country_language_name_part_11(c) {
        return Some(n);
    }
    if let Some(n) = country_language_name_part_12(c) {
        return Some(n);
    }
    if let Some(n) = country_language_name_part_13(c) {
        return Some(n);
    }
    if let Some(n) = country_language_name_part_14(c) {
        return Some(n);
    }
    if let Some(n) = country_language_name_part_15(c) {
        return Some(n);
    }
    if let Some(n) = country_language_name_part_16(c) {
        return Some(n);
    }
    if let Some(n) = country_language_name_part_17(c) {
        return Some(n);
    }
    None
}

/// The name of a language, by ISO 639-1 code (part 1 of 3).
pub open spec fn iso639_language_name_0(c: Seq<char>) -> Option<Seq<char>> {
    if c == "aa"@ {
        Some("’Afar Af"@)
    } else if c == "ab"@ {
        Some("Аҧсуа бызшәа"@)
    } else if c == "ae"@ {
        Some("Avestan"@)
    } else if c == "af"@ {
        Some("Afrikaans"@)
    } else if c == "ak"@ {
        Some("Akan"@)
    } else if c == "am"@ {
        Some("አማርኛ"@)
    } else if c == "an"@ {
        Some("Aragonés"@)
    } else if c == "ar"@ {
        Some("العربية"@)
    } else if c == "as"@ {
        Some("অসমীয়া"@)
    } else if c == "av"@ {
        Some("Магӏарул мацӏ"@)
    } else if c == "ay"@ {
        Some("Aymar aru"@)
    } else if c == "az"@ {
        Some("Azərbaycan dili"@)
    } else if c == "ba"@ {
        Some("Башҡорт теле"@)
    } else if c == "be"@ {
        Some("Беларуская мова"@)
    } else if c == "bg"@ {
        Some("български език"@)
    } else if c == "bi"@ {
        Some("Bislama"@)
    } else if c == "bm"@ {
        Some("ߓߊߡߊߣߊߣߞߊߣ"@)
    } else if c == "bn"@ {
        Some("বাংলা"@)
    } else if c == "bo"@ {
        Some("བོད་སྐད་"@)
    } else if c == "br"@ {
        Some("Brezhoneg"@)
    } else if c == "bs"@ {
        Some("Bosanski"@)
    } else if c == "ca"@ {
        Some("Català"@)
    } else if c == "ce"@ {
        Some("Нохчийн мотт"@)
    } else if c == "ch"@ {
        Some("Finu' Chamoru"@)
    } else if c == "co"@ {
        Some("Corsu"@)
    } else if c == "cr"@ {
        Some("Cree"@)
    } else if c == "cs"@ {
        Some("čeština"@)
    } else if c == "cu"@ {
        Some("Славе́нскїй ѧ҆зы́къ"@)
    } else if c == "cv"@ {
        Some("Чӑвашла"@)
    } else if c == "cy"@ {
        Some("Cymraeg"@)
    } else if c == "da"@ {
        Some("Dansk"@)
    } else if c == "de"@ {
        Some("Deutsch"@)
    } else if c == "dv"@ {
        Some("ދިވެހި"@)
    } else if c == "dz"@ {
        Some("རྫོང་ཁ་"@)
    } else if c == "ee"@ {
        Some("Èʋegbe"@)
    } else if c == "el"@ {
        Some("Νέα Ελληνικά"@)
    } else if c == "en"@ {
        Some("English"@)
    } else if c == "eo"@ {
        Some("Esperanto"@)
    } else if c == "es"@ {
        Some("Español"@)
    } else if c == "et"@ {
        Some("Eesti keel"@)
    } else if c == "eu"@ {
        Some("Euskara"@)
    } else if c == "fa"@ {
        Some("فارسی"@)
    } else if c == "ff"@ {
        Some("Fulfulde"@)
    } else if c == "fi"@ {
        Some("Suomen kieli"@)
    } else if c == "fj"@ {
        Some("Na Vosa Vakaviti"@)
    } else if c == "fo"@ {
        Some("Føroyskt"@)
    } else if c == "fr"@ {
        Some("Français"@)
    } else if c == "fy"@ {
        Some("Frysk"@)
    } else if c == "ga"@ {
        Some("Gaeilge"@)
    } else if c == "gd"@ {
        Some("Gàidhlig"@)
    } else if c == "gl"@ {
        Some("Galego"@)
    } else if c == "gn"@ {
        Some("Avañe'ẽ"@)
    } else if c == "gu"@ {
        Some("ગુજરાતી"@)
    } else if c == "gv"@ {
        Some("Gaelg"@)
    } else if c == "ha"@ {
        Some("Harshen Hausa"@)
    } else if c == "he"@ {
        Some("עברית"@)
    } else if c == "hi"@ {
        Some("हिन्दी"@)
    } else if c == "ho"@ {
        Some("Hiri Motu"@)
    } else if c == "hr"@ {
        Some("Hrvatski"@)
    } else if c == "ht"@ {
        Some("Kreyòl Ayisyen"@)
    } else if c == "hu"@ {
        Some("Magyar nyelv"@)
    } else {
        None
    }
}

fn iso639_language_name_part_0(c: &[char]) -> (r: Option<&'static str>)
    ensures
        match r {
            Some(n) => iso639_language_name_0(c@) == Some(n@),
            None => iso639_language_name_0(c@) is None,
        },
{
    if chars_are(c, "aa") {
        return Some("’Afar Af");
    }
    if chars_are(c, "ab") {
        return Some("Аҧсуа бызшәа");
    }
    if chars_are(c, "ae") {
        return Some("Avestan");
    }
    if chars_are(c, "af") {
        return Some("Afrikaans");
    }
    if chars_are(c, "ak") {
        return Some("Akan");
    }
    if chars_are(c, "am") {
        return Some("አማርኛ");
    }
    if chars_are(c, "an") {
        return Some("Aragonés");
    }
    if chars_are(c, "ar") {
        return Some("العربية");
    }
    if chars_are(c, "as") {
        return Some("অসমীয়া");
    }
    if chars_are(c, "av") {
        return Some("Магӏарул мацӏ");
    }
    if chars_are(c, "ay") {
        return Some("Aymar aru");
    }
    if chars_are(c, "az") {
        return Some("Azərbaycan dili");
    }
    if chars_are(c, "ba") {
        return Some("Башҡорт теле");
    }
    if chars_are(c, "be") {
        return Some("Беларуская мова");
    }
    if chars_are(c, "bg") {
        return Some("български език");
    }
    if chars_are(c, "bi") {
        return Some("Bislama");
    }
    if chars_are(c, "bm") {
        return Some("ߓߊߡߊߣߊߣߞߊߣ");
    }
    if chars_are(c, "bn") {
        return Some("বাংলা");
    }
    if chars_are(c, "bo") {
        return Some("བོད་སྐད་");
    }
    if chars_are(c, "br") {
        return Some("Brezhoneg");
    }
    if chars_are(c, "bs") {
        return Some("Bosanski");
    }
    if chars_are(c, "ca") {
        return Some("Català");
    }
    if chars_are(c, "ce") {
        return Some("Нохчийн мотт");
    }
    if chars_are(c, "ch") {
        return Some("Finu' Chamoru");
    }
    if chars_are(c, "co") {
        return Some("Corsu");
    }
    if chars_are(c, "cr") {
        return Some("Cree");
    }
    if chars_are(c, "cs") {
        return Some("čeština");
    }
    if chars_are(c, "cu") {
        return Some("Славе́нскїй ѧ҆зы́къ");
    }
    if chars_are(c, "cv") {
        return Some("Чӑвашла");
    }
    if chars_are(c, "cy") {
        return Some("Cymraeg");
    }
    if chars_are(c, "da") {
        return Some("Dansk");
    }
    if chars_are(c, "de") {
        return Some("Deutsch");
    }
    if chars_are(c, "dv") {
        return Some("ދިވެހި");
    }
    if chars_are(c, "dz") {
        return Some("རྫོང་ཁ་");
    }
    if chars_are(c, "ee") {
        return Some("Èʋegbe");
    }
    if chars_are(c, "el") {
        return Some("Νέα Ελληνικά");
    }
    if chars_are(c, "en") {
        return Some("English");
    }
    if chars_are(c, "eo") {
        return Some("Esperanto");
    }
    if chars_are(c, "es") {
        return Some("Español");
    }
    if chars_are(c, "et") {
        return Some("Eesti keel");
    }
    if chars_are(c, "eu") {
        return Some("Euskara");
    }
    if chars_are(c, "fa") {
        return Some("فارسی");
    }
    if chars_are(c, "ff") {
        return Some("Fulfulde");
    }
    if chars_are(c, "fi") {
        return Some("Suomen kieli");
    }
    if chars_are(c, "fj") {
        return Some("Na Vosa Vakaviti");
    }
    if chars_are(c, "fo") {
        return Some("Føroyskt");
    }
    if chars_are(c, "fr") {
        return Some("Français");
    }
    if chars_are(c, "fy") {
        return Some("Frysk");
    }
    if chars_are(c, "ga") {
        return Some("Gaeilge");
    }
    if chars_are(c, "gd") {
        return Some("Gàidhlig");
    }
    if chars_are(c, "gl") {
        return Some("Galego");
    }
    if chars_are(c, "gn") {
        return Some("Avañe'ẽ");
    }
    if chars_are(c, "gu") {
        return Some("ગુજરાતી");
    }
    if chars_are(c, "gv") {
        return Some("Gaelg");
    }
    if chars_are(c, "ha") {
        return Some("Harshen Hausa");
    }
    if chars_are(c, "he") {
        return Some("עברית");
    }
    if chars_are(c, "hi") {
        return Some("हिन्दी");
    }
    if chars_are(c, "ho") {
        return Some("Hiri Motu");
    }
    if chars_are(c, "hr") {
        return Some("Hrvatski");
    }
    if chars_are(c, "ht") {
        return Some("Kreyòl Ayisyen");
    }
    if chars_are(c, "hu") {
        return Some("Magyar nyelv");
    }
    None
}

/// The name of a language, by ISO 639-1 code (part 2 of 3).
pub open spec fn iso639_language_name_1(c: Seq<char>) -> Option<Seq<char>> {
    if c == "hy"@ {
        Some("Հայերէն"@)
    } else if c == "hz"@ {
        Some("Otjiherero"@)
    } else if c == "ia"@ {
        Some("Interlingua"@)
    } else if c == "id"@ {
        Some("Bahasa Indonesia"@)
    } else if c == "ie"@ {
        Some("Interlingue"@)
    } else if c == "ig"@ {
        Some("Asụsụ Igbo"@)
    } else if c == "ii"@ {
        Some("ꆈꌠꉙ"@)
    } else if c == "ik"@ {
        Some("Iñupiaq"@)
    } else if c == "io"@ {
        Some("Ido"@)
    } else if c == "is"@ {
        Some("Íslenska"@)
    } else if c == "it"@ {
        Some("Italiano"@)
    } else if c == "iu"@ {
        Some("ᐃᓄᒃᑎᑐᑦ"@)
    } else if c == "ja"@ {
        Some("日本語"@)
    } else if c == "jv"@ {
        Some("ꦧꦱꦗꦮ"@)
    } else if c == "ka"@ {
        Some("ქართული"@)
    } else if c == "kg"@ {
        Some("Kikongo"@)
    } else if c == "ki"@ {
        Some("Gĩkũyũ"@)
    } else if c == "kj"@ {
        Some("Kuanyama"@)
    } else if c == "kk"@ {
        Some("Қазақ тілі"@)
    } else if c == "kl"@ {
        Some("Kalaallisut"@)
    } else if c == "km"@ {
        Some("ភាសាខ្មែរ"@)
    } else if c == "kn"@ {
        Some("ಕನ್ನಡ"@)
    } else if c == "ko"@ {
        Some("한국어"@)
    } else if c == "kr"@ {
        Some("Kanuri"@)
    } else if c == "ks"@ {
        Some("कॉशुर"@)
    } else if c == "ku"@ {
        Some("Kurdî"@)
    } else if c == "kv"@ {
        Some("Коми кыв"@)
    } else if c == "kw"@ {
        Some("Kernowek"@)
    } else if c == "ky"@ {
        Some("Кыргызстандык"@)
    } else if c == "la"@ {
        Some("Lingua latīna"@)
    } else if c == "lb"@ {
        Some("Lëtzebuergesch"@)
    } else if c == "lg"@ {
        Some("Luganda"@)
    } else if c == "li"@ {
        Some("Lèmburgs"@)
    } else if c == "ln"@ {
        Some("Lingala"@)
    } else if c == "lo"@ {
        Some("ພາສາລາວ"@)
    } else if c == "lt"@ {
        Some("Lietuvių kalba"@)
    } else if c == "lu"@ {
        Some("Kiluba"@)
    } else if c == "lv"@ {
        Some("Latviešu valoda"@)
    } else if c == "mg"@ {
        Some("Malagasy"@)
    } else if c == "mh"@ {
        Some("Kajin M̧ajeļ"@)
    } else if c == "mi"@ {
        Some("Te Reo Māori"@)
    } else if c == "mk"@ {
        Some("Македонски јазик"@)
    } else if c == "ml"@ {
        Some("മലയാളം"@)
    } else if c == "mn"@ {
        Some("Монгол хэл"@)
    } else if c == "mr"@ {
        Some("मराठी"@)
    } else if c == "ms"@ {
        Some("Bahasa Melayu"@)
    } else if c == "mt"@ {
        Some("Malti"@)
    } else if c == "my"@ {
        Some("မြန်မာစာ"@)
    } else if c == "na"@ {
        Some("Dorerin Naoero"@)
    } else if c == "nb"@ {
        Some("Norsk Bokmål"@)
    } else if c == "nd"@ {
        Some("SiNdebele saSeNyakatho"@)
    } else if c == "ne"@ {
        Some("नेपाली भाषा"@)
    } else if c == "ng"@ {
        Some("Ndonga"@)
    } else if c == "nl"@ {
        Some("Nederlands"@)
    } else if c == "nn"@ {
        Some("Norsk Nynorsk"@)
    } else if c == "no"@ {
        Some("Norsk"@)
    } else if c == "nr"@ {
        Some("SiNdebele saSewula"@)
    } else if c == "nv"@ {
        Some("Diné bizaad"@)
    } else if c == "ny"@ {
        Some("Chichewa"@)
    } else if c == "oc"@ {
        Some("Occitan"@)
    } else if c == "oj"@ {
        Some("Ojibwe"@)
    } else {
        None
    }
}

fn iso639_language_name_part_1(c: &[char]) -> (r: Option<&'static str>)
    ensures
        match r {
            Some(n) => iso639_language_name_1(c@) == Some(n@),
            None => iso639_language_name_1(c@) is None,
        },
{
    if chars_are(c, "hy") {
        return Some("Հայերէն");
    }
    if chars_are(c, "hz") {
        return Some("Otjiherero");
    }
    if chars_are(c, "ia") {
        return Some("Interlingua");
    }
    if chars_are(c, "id") {
        return Some("Bahasa Indonesia");
    }
    if chars_are(c, "ie") {
        return Some("Interlingue");
    }
    if chars_are(c, "ig") {
        return Some("Asụsụ Igbo");
    }
    if chars_are(c, "ii") {
        return Some("ꆈꌠꉙ");
    }
    if chars_are(c, "ik") {
        return Some("Iñupiaq");
    }
    if chars_are(c, "io") {
        return Some("Ido");
    }
    if chars_are(c, "is") {
        return Some("Íslenska");
    }
    if chars_are(c, "it") {
        return Some("Italiano");
    }
    if chars_are(c, "iu") {
        return Some("ᐃᓄᒃᑎᑐᑦ");
    }
    if chars_are(c, "ja") {
        return Some("日本語");
    }
    if chars_are(c, "jv") {
        return Some("ꦧꦱꦗꦮ");
    }
    if chars_are(c, "ka") {
        return Some("ქართული");
    }
    if chars_are(c, "kg") {
        return Some("Kikongo");
    }
    if chars_are(c, "ki") {
        return Some("Gĩkũyũ");
    }
    if chars_are(c, "kj") {
        return Some("Kuanyama");
    }
    if chars_are(c, "kk") {
        return Some("Қазақ тілі");
    }
    if chars_are(c, "kl") {
        return Some("Kalaallisut");
    }
    if chars_are(c, "km") {
        return Some("ភាសាខ្មែរ");
    }
    if chars_are(c, "kn") {
        return Some("ಕನ್ನಡ");
    }
    if chars_are(c, "ko") {
        return Some("한국어");
    }
    if chars_are(c, "kr") {
        return Some("Kanuri");
    }
    if chars_are(c, "ks") {
        return Some("कॉशुर");
    }
    if chars_are(c, "ku") {
        return Some("Kurdî");
    }
    if chars_are(c, "kv") {
        return Some("Коми кыв");
    }
    if chars_are(c, "kw") {
        return Some("Kernowek");
    }
    if chars_are(c, "ky") {
        return Some("Кыргызстандык");
    }
    if chars_are(c, "la") {
        return Some("Lingua latīna");
    }
    if chars_are(c, "lb") {
        return Some("Lëtzebuergesch");
    }
    if chars_are(c, "lg") {
        return Some("Luganda");
    }
    if chars_are(c, "li") {
        return Some("Lèmburgs");
    }
    if chars_are(c, "ln") {
        return Some("Lingala");
    }
    if chars_are(c, "lo") {
        return Some("ພາສາລາວ");
    }
    if chars_are(c, "lt") {
        return Some("Lietuvių kalba");
    }
    if chars_are(c, "lu") {
        return Some("Kiluba");
    }
    if chars_are(c, "lv") {
        return Some("Latviešu valoda");
    }
    if chars_are(c, "mg") {
        return Some("Malagasy");
    }
    if chars_are(c, "mh") {
        return Some("Kajin M̧ajeļ");
    }
    if chars_are(c, "mi") {
        return Some("Te Reo Māori");
    }
    if chars_are(c, "mk") {
        return Some("Македонски јазик");
    }
    if chars_are(c, "ml") {
        return Some("മലയാളം");
    }
    if chars_are(c, "mn") {
        return Some("Монгол хэл");
    }
    if chars_are(c, "mr") {
        return Some("मराठी");
    }
    if chars_are(c, "ms") {
        return Some("Bahasa Melayu");
    }
    if chars_are(c, "mt") {
        return Some("Malti");
    }
    if chars_are(c, "my") {
        return Some("မြန်မာစာ");
    }
    if chars_are(c, "na") {
        return Some("Dorerin Naoero");
    }
    if chars_are(c, "nb") {
        return Some("Norsk Bokmål");
    }
    if chars_are(c, "nd") {
        return Some("SiNdebele saSeNyakatho");
    }
    if chars_are(c, "ne") {
        return Some("नेपाली भाषा");
    }
    if chars_are(c, "ng") {
        return Some("Ndonga");
    }
    if chars_are(c, "nl") {
        return Some("Nederlands");
    }
    if chars_are(c, "nn") {
        return Some("Norsk Nynorsk");
    }
    if chars_are(c, "no") {
        return Some("Norsk");
    }
    if chars_are(c, "nr") {
        return Some("SiNdebele saSewula");
    }
    if chars_are(c, "nv") {
        return Some("Diné bizaad");
    }
    if chars_are(c, "ny") {
        return Some("Chichewa");
    }
    if chars_are(c, "oc") {
        return Some("Occitan");
    }
    if chars_are(c, "oj") {
        return Some("Ojibwe");
    }
    None
}

/// The name of a language, by ISO 639-1 code (part 3 of 3).
pub open spec fn iso639_language_name_2(c: Seq<char>) -> Option<Seq<char>> {
    if c == "om"@ {
        Some("Afaan Oromoo"@)
    } else if c == "or"@ {
        Some("ଓଡ଼ିଆ"@)
    } else if c == "os"@ {
        Some("Ирон ӕвзаг"@)
    } else if c == "pa"@ {
        Some("ਪੰਜਾਬੀ"@)
    } else if c == "pi"@ {
        Some("Pāli"@)
    } else if c == "pl"@ {
        Some("Język polski"@)
    } else if c == "ps"@ {
        Some("پښتو"@)
    } else if c == "pt"@ {
        Some("Português"@)
    } else if c == "qu"@ {
        Some("Runa simi"@)
    } else if c == "rm"@ {
        Some("Rumantsch"@)
    } else if c == "rn"@ {
        Some("Ikirundi"@)
    } else if c == "ro"@ {
        Some("Limba română"@)
    } else if c == "ru"@ {
        Some("Русский язык"@)
    } else if c == "rw"@ {
        Some("Ikinyarwanda"@)
    } else if c == "sa"@ {
        Some("संस्कृतम्"@)
    } else if c == "sc"@ {
        Some("Sardu"@)
    } else if c == "sd"@ {
        Some("سنڌي"@)
    } else if c == "se"@ {
        Some("Davvisámegiella"@)
    } else if c == "sg"@ {
        Some("Yângâ tî Sängö"@)
    } else if c == "si"@ {
        Some("සිංහල"@)
    } else if c == "sk"@ {
        Some("Slovenčina"@)
    } else if c == "sl"@ {
        Some("Slovenščina"@)
    } else if c == "sm"@ {
        Some("Gagana faʻa Sāmoa"@)
    } else if c == "sn"@ {
        Some("ChiShona"@)
    } else if c == "so"@ {
        Some("Af Soomaali"@)
    } else if c == "sq"@ {
        Some("Shqip"@)
    } else if c == "sr"@ {
        Some("Српски"@)
    } else if c == "ss"@ {
        Some("SiSwati"@)
    } else if c == "st"@ {
        Some("Sesotho"@)
    } else if c == "su"@ {
        Some("ᮘᮞ ᮞᮥᮔ᮪ᮓ"@)
    } else if c == "sv"@ {
        Some("Svenska"@)
    } else if c == "sw"@ {
        Some("Kiswahili"@)
    } else if c == "ta"@ {
        Some("தமிழ்"@)
    } else if c == "te"@ {
        Some("తెలుగు"@)
    } else if c == "tg"@ {
        Some("Тоҷикӣ"@)
    } else if c == "th"@ {
        Some("ภาษาไทย"@)
    } else if c == "ti"@ {
        Some("ትግርኛ"@)
    } else if c == "tk"@ {
        Some("Türkmençe"@)
    } else if c == "tl"@ {
        Some("Wikang Tagalog"@)
    } else if c == "tn"@ {
        Some("Setswana"@)
    } else if c == "to"@ {
        Some("Lea faka-Tonga"@)
    } else if c == "tr"@ {
        Some("Türkçe"@)
    } else if c == "ts"@ {
        Some("Xitsonga"@)
    } else if c == "tt"@ {
        Some("Татар теле"@)
    } else if c == "tw"@ {
        Some("Twi"@)
    } else if c == "ty"@ {
        Some("Reo Tahiti"@)
    } else if c == "ug"@ {
        Some("ئۇيغۇرچە"@)
    } else if c == "uk"@ {
        Some("Українська"@)
    } else if c == "ur"@ {
        Some("اردو"@)
    } else if c == "uz"@ {
        Some("Oʻzbekcha"@)
    } else if c == "ve"@ {
        Some("Tshivenḓa"@)
    } else if c == "vi"@ {
        Some("Tiếng Việt"@)
    } else if c == "vo"@ {
        Some("Volapük"@)
    } else if c == "wa"@ {
        Some("Walon"@)
    } else if c == "wo"@ {
        Some("Wollof"@)
    } else if c == "xh"@ {
        Some("isiXhosa"@)
    } else if c == "yi"@ {
        Some("ייִדיש"@)
    } else if c == "yo"@ {
        Some("Yorùbá"@)
    } else if c == "za"@ {
        Some("Saɯ cueŋƅ"@)
    } else if c == "zh"@ {
        Some("中文"@)
    } else if c == "zu"@ {
        Some("isiZulu"@)
    } else {
        None
    }
}

fn iso639_language_name_part_2(c: &[char]) -> (r: Option<&'static str>)
    ensures
        match r {
            Some(n) => iso639_language_name_2(c@) == Some(n@),
            None => iso639_language_name_2(c@) is None,
        },
{
    if chars_are(c, "om") {
        return Some("Afaan Oromoo");
    }
    if chars_are(c, "or") {
        return Some("ଓଡ଼ିଆ");
    }
    if chars_are(c, "os") {
        return Some("Ирон ӕвзаг");
    }
    if chars_are(c, "pa") {
        return Some("ਪੰਜਾਬੀ");
    }
    if chars_are(c, "pi") {
        return Some("Pāli");
    }
    if chars_are(c, "pl") {
        return Some("Język polski");
    }
    if chars_are(c, "ps") {
        return Some("پښتو");
    }
    if chars_are(c, "pt") {
        return Some("Português");
    }
    if chars_are(c, "qu") {
        return Some("Runa simi");
    }
    if chars_are(c, "rm") {
        return Some("Rumantsch");
    }
    if chars_are(c, "rn") {
        return Some("Ikirundi");
    }
    if chars_are(c, "ro") {
        return Some("Limba română");
    }
    if chars_are(c, "ru") {
        return Some("Русский язык");
    }
    if chars_are(c, "rw") {
        return Some("Ikinyarwanda");
    }
    if chars_are(c, "sa") {
        return Some("संस्कृतम्");
    }
    if chars_are(c, "sc") {
        return Some("Sardu");
    }
    if chars_are(c, "sd") {
        return Some("سنڌي");
    }
    if chars_are(c, "se") {
        return Some("Davvisámegiella");
    }
    if chars_are(c, "sg") {
        return Some("Yângâ tî Sängö");
    }
    if chars_are(c, "si") {
        return Some("සිංහල");
    }
    if chars_are(c, "sk") {
        return Some("Slovenčina");
    }
    if chars_are(c, "sl") {
        return Some("Slovenščina");
    }
    if chars_are(c, "sm") {
        return Some("Gagana faʻa Sāmoa");
    }
    if chars_are(c, "sn") {
        return Some("ChiShona");
    }
    if chars_are(c, "so") {
        return Some("Af Soomaali");
    }
    if chars_are(c, "sq") {
        return Some("Shqip");
    }
    if chars_are(c, "sr") {
        return Some("Српски");
    }
    if chars_are(c, "ss") {
        return Some("SiSwati");
    }
    if chars_are(c, "st") {
        return Some("Sesotho");
    }
    if chars_are(c, "su") {
        return Some("ᮘᮞ ᮞᮥᮔ᮪ᮓ");
    }
    if chars_are(c, "sv") {
        return Some("Svenska");
    }
    if chars_are(c, "sw") {
        return Some("Kiswahili");
    }
    if chars_are(c, "ta") {
        return Some("தமிழ்");
    }
    if chars_are(c, "te") {
        return Some("తెలుగు");
    }
    if chars_are(c, "tg") {
        return Some("Тоҷикӣ");
    }
    if chars_are(c, "th") {
        return Some("ภาษาไทย");
    }
    if chars_are(c, "ti") {
        return Some("ትግርኛ");
    }
    if chars_are(c, "tk") {
        return Some("Türkmençe");
    }
    if chars_are(c, "tl") {
        return Some("Wikang Tagalog");
    }
    if chars_are(c, "tn") {
        return Some("Setswana");
    }
    if chars_are(c, "to") {
        return Some("Lea faka-Tonga");
    }
    if chars_are(c, "tr") {
        return Some("Türkçe");
    }
    if chars_are(c, "ts") {
        return Some("Xitsonga");
    }
    if chars_are(c, "tt") {
        return Some("Татар теле");
    }
    if chars_are(c, "tw") {
        return Some("Twi");
    }
    if chars_are(c, "ty") {
        return Some("Reo Tahiti");
    }
    if chars_are(c, "ug") {
        return Some("ئۇيغۇرچە");
    }
    if chars_are(c, "uk") {
        return Some("Українська");
    }
    if chars_are(c, "ur") {
        return Some("اردو");
    }
    if chars_are(c, "uz") {
        return Some("Oʻzbekcha");
    }
    if chars_are(c, "ve") {
        return Some("Tshivenḓa");
    }
    if chars_are(c, "vi") {
        return Some("Tiếng Việt");
    }
    if chars_are(c, "vo") {
        return Some("Volapük");
    }
    if chars_are(c, "wa") {
        return Some("Walon");
    }
    if chars_are(c, "wo") {
        return Some("Wollof");
    }
    if chars_are(c, "xh") {
        return Some("isiXhosa");
    }
    if chars_are(c, "yi") {
        return Some("ייִדיש");
    }
    if chars_are(c, "yo") {
        return Some("Yorùbá");
    }
    if chars_are(c, "za") {
        return Some("Saɯ cueŋƅ");
    }
    if chars_are(c, "zh") {
        return Some("中文");
    }
    if chars_are(c, "zu") {
        return Some("isiZulu");
    }
    None
}

/// The name of a language, by ISO 639-1 code.
pub open spec fn iso639_language_name(c: Seq<char>) -> Option<Seq<char>> {
    match iso639_language_name_0(c) { Some(n) => Some(n), None => match iso639_language_name_1(c) { Some(n) => Some(n), None => iso639_language_name_2(c) } }
}

/// The name of a language, by ISO 639-1 code, looked up in the table.
pub fn iso639_language_name_lookup(c: &[char]) -> (r: Option<&'static str>)
    ensures
        match r {
            Some(n) => iso639_language_name(c@) == Some(n@),
            None => iso639_language_name(c@) is None,
        },
{
    if let Some(n) = iso639_language_name_part_0(c) {
        return Some(n);
    }
    if let Some(n) = iso639_language_name_part_1(c) {
        return Some(n);
    }
    if let Some(n) = iso639_language_name_part_2(c) {
        return Some(n);
    }
    None
}

} // verus!
