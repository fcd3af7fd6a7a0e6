//! The fixed crawler-signature and ignored-extension lists that drive the
//! request classifier.

use vstd::prelude::*;

verus! {

/// The user-agent substrings that identify crawler or preview-fetcher
/// traffic, matched ASCII case-insensitively.
pub open spec fn crawler_signatures_spec() -> Seq<Seq<char>> {
    seq![
        "googlebot"@,
        "Yahoo! Slurp"@,
        "bingbot"@,
        "yandex"@,
        "baiduspider"@,
        "facebookexternalhit"@,
        "twitterbot"@,
        "rogerbot"@,
        "linkedinbot"@,
        "embedly"@,
        "quora link preview"@,
        "showyoubot"@,
        "outbrain"@,
        "pinterest/0."@,
        "developers.google.com/+/web/snippet"@,
        "slackbot"@,
        "vkShare"@,
        "W3C_Validator"@,
        "redditbot"@,
        "Applebot"@,
        "WhatsApp"@,
        "flipboard"@,
        "tumblr"@,
        "bitlybot"@,
        "SkypeUriPreview"@,
        "nuzzel"@,
        "Discordbot"@,
        "Google Page Speed"@,
        "Qwantify"@,
        "pinterestbot"@,
        "Bitrix link preview"@,
        "XING-contenttabreceiver"@,
        "Chrome-Lighthouse"@,
        "TelegramBot"@,
        "SeznamBot"@,
    ]
}

/// The user-agent substrings that identify crawler or preview-fetcher
/// traffic, matched ASCII case-insensitively.
pub fn crawler_signatures() -> (v: Vec<&'static str>)
    ensures
        v@.len() == crawler_signatures_spec().len(),
        forall|i: int| 0 <= i < v@.len() ==> v@[i]@ == crawler_signatures_spec()[i],
{
    let v: Vec<&'static str> = vec![
        "googlebot",
        "Yahoo! Slurp",
        "bingbot",
        "yandex",
        "baiduspider",
        "facebookexternalhit",
        "twitterbot",
        "rogerbot",
        "linkedinbot",
        "embedly",
        "quora link preview",
        "showyoubot",
        "outbrain",
        "pinterest/0.",
        "developers.google.com/+/web/snippet",
        "slackbot",
        "vkShare",
        "W3C_Validator",
        "redditbot",
        "Applebot",
        "WhatsApp",
        "flipboard",
        "tumblr",
        "bitlybot",
        "SkypeUriPreview",
        "nuzzel",
        "Discordbot",
        "Google Page Speed",
        "Qwantify",
        "pinterestbot",
        "Bitrix link preview",
        "XING-contenttabreceiver",
        "Chrome-Lighthouse",
        "TelegramBot",
        "SeznamBot",
    ];
    proof {
        assert forall|i: int| 0 <= i < v@.len() implies v@[i]@ == crawler_signatures_spec()[i] by {
            assert(v@[0]@ == crawler_signatures_spec()[0]);
            assert(v@[1]@ == crawler_signatures_spec()[1]);
            assert(v@[2]@ == crawler_signatures_spec()[2]);
            assert(v@[3]@ == crawler_signatures_spec()[3]);
            assert(v@[4]@ == crawler_signatures_spec()[4]);
            assert(v@[5]@ == crawler_signatures_spec()[5]);
            assert(v@[6]@ == crawler_signatures_spec()[6]);
            assert(v@[7]@ == crawler_signatures_spec()[7]);
            assert(v@[8]@ == crawler_signatures_spec()[8]);
            assert(v@[9]@ == crawler_signatures_spec()[9]);
            assert(v@[10]@ == crawler_signatures_spec()[10]);
            assert(v@[11]@ == crawler_signatures_spec()[11]);
            assert(v@[12]@ == crawler_signatures_spec()[12]);
            assert(v@[13]@ == crawler_signatures_spec()[13]);
            assert(v@[14]@ == crawler_signatures_spec()[14]);
            assert(v@[15]@ == crawler_signatures_spec()[15]);
            assert(v@[16]@ == crawler_signatures_spec()[16]);
            assert(v@[17]@ == crawler_signatures_spec()[17]);
            assert(v@[18]@ == crawler_signatures_spec()[18]);
            assert(v@[19]@ == crawler_signatures_spec()[19]);
            assert(v@[20]@ == crawler_signatures_spec()[20]);
            assert(v@[21]@ == crawler_signatures_spec()[21]);
            assert(v@[22]@ == crawler_signatures_spec()[22]);
            assert(v@[23]@ == crawler_signatures_spec()[23]);
            assert(v@[24]@ == crawler_signatures_spec()[24]);
            assert(v@[25]@ == crawler_signatures_spec()[25]);
            assert(v@[26]@ == crawler_signatures_spec()[26]);
            assert(v@[27]@ == crawler_signatures_spec()[27]);
            assert(v@[28]@ == crawler_signatures_spec()[28]);
            assert(v@[29]@ == crawler_signatures_spec()[29]);
            assert(v@[30]@ == crawler_signatures_spec()[30]);
            assert(v@[31]@ == crawler_signatures_spec()[31]);
            assert(v@[32]@ == crawler_signatures_spec()[32]);
            assert(v@[33]@ == crawler_signatures_spec()[33]);
            assert(v@[34]@ == crawler_signatures_spec()[34]);
        }
    }
    v
}

/// The static-asset markers: a request whose path and query contain any
/// of them is never diverted to rendering.
pub open spec fn ignored_extensions_spec() -> Seq<Seq<char>> {
    seq![
        ".css"@,
        ".xml"@,
        ".less"@,
        ".png"@,
        ".jpg"@,
        ".jpeg"@,
        ".gif"@,
        ".pdf"@,
        ".doc"@,
        ".txt"@,
        ".ico"@,
        ".rss"@,
        ".zip"@,
        ".mp3"@,
        ".rar"@,
        ".exe"@,
        ".wmv"@,
        ".doc"@,
        ".avi"@,
        ".ppt"@,
        ".mpg"@,
        ".mpeg"@,
        ".tif"@,
        ".wav"@,
        ".mov"@,
        ".psd"@,
        ".ai"@,
        ".xls"@,
        ".mp4"@,
        ".m4a"@,
        ".swf"@,
        ".dat"@,
        ".dmg"@,
        ".iso"@,
        ".flv"@,
        ".m4v"@,
        ".torrent"@,
        ".woff"@,
        ".ttf"@,
        ".svg"@,
        ".webmanifest"@,
    ]
}

/// The static-asset markers: a request whose path and query contain any
/// of them is never diverted to rendering.
pub fn ignored_extensions() -> (v: Vec<&'static str>)
    ensures
        v@.len() == ignored_extensions_spec().len(),
        forall|i: int| 0 <= i < v@.len() ==> v@[i]@ == ignored_extensions_spec()[i],
{
    let v: Vec<&'static str> = vec![
        ".css",
        ".xml",
        ".less",
        ".png",
        ".jpg",
        ".jpeg",
        ".gif",
        ".pdf",
        ".doc",
        ".txt",
        ".ico",
        ".rss",
        ".zip",
        ".mp3",
        ".rar",
        ".exe",
        ".wmv",
        ".doc",
        ".avi",
        ".ppt",
        ".mpg",
        ".mpeg",
        ".tif",
        ".wav",
        ".mov",
        ".psd",
        ".ai",
        ".xls",
        ".mp4",
        ".m4a",
        ".swf",
        ".dat",
        ".dmg",
        ".iso",
        ".flv",
        ".m4v",
        ".torrent",
        ".woff",
        ".ttf",
        ".svg",
        ".webmanifest",
    ];
    proof {
        assert forall|i: int| 0 <= i < v@.len() implies v@[i]@ == ignored_extensions_spec()[i] by {
            assert(v@[0]@ == ignored_extensions_spec()[0]);
            assert(v@[1]@ == ignored_extensions_spec()[1]);
            assert(v@[2]@ == ignored_extensions_spec()[2]);
            assert(v@[3]@ == ignored_extensions_spec()[3]);
            assert(v@[4]@ == ignored_extensions_spec()[4]);
            assert(v@[5]@ == ignored_extensions_spec()[5]);
            assert(v@[6]@ == ignored_extensions_spec()[6]);
            assert(v@[7]@ == ignored_extensions_spec()[7]);
            assert(v@[8]@ == ignored_extensions_spec()[8]);
            assert(v@[9]@ == ignored_extensions_spec()[9]);
            assert(v@[10]@ == ignored_extensions_spec()[10]);
            assert(v@[11]@ == ignored_extensions_spec()[11]);
            assert(v@[12]@ == ignored_extensions_spec()[12]);
            assert(v@[13]@ == ignored_extensions_spec()[13]);
            assert(v@[14]@ == ignored_extensions_spec()[14]);
            assert(v@[15]@ == ignored_extensions_spec()[15]);
            assert(v@[16]@ == ignored_extensions_spec()[16]);
            assert(v@[17]@ == ignored_extensions_spec()[17]);
            assert(v@[18]@ == ignored_extensions_spec()[18]);
            assert(v@[19]@ == ignored_extensions_spec()[19]);
            assert(v@[20]@ == ignored_extensions_spec()[20]);
            assert(v@[21]@ == ignored_extensions_spec()[21]);
            assert(v@[22]@ == ignored_extensions_spec()[22]);
            assert(v@[23]@ == ignored_extensions_spec()[23]);
            assert(v@[24]@ == ignored_extensions_spec()[24]);
            assert(v@[25]@ == ignored_extensions_spec()[25]);
            assert(v@[26]@ == ignored_extensions_spec()[26]);
            assert(v@[27]@ == ignored_extensions_spec()[27]);
            assert(v@[28]@ == ignored_extensions_spec()[28]);
            assert(v@[29]@ == ignored_extensions_spec()[29]);
            assert(v@[30]@ == ignored_extensions_spec()[30]);
            assert(v@[31]@ == ignored_extensions_spec()[31]);
            assert(v@[32]@ == ignored_extensions_spec()[32]);
            assert(v@[33]@ == ignored_extensions_spec()[33]);
            assert(v@[34]@ == ignored_extensions_spec()[34]);
            assert(v@[35]@ == ignored_extensions_spec()[35]);
            assert(v@[36]@ == ignored_extensions_spec()[36]);
            assert(v@[37]@ == ignored_extensions_spec()[37]);
            assert(v@[38]@ == ignored_extensions_spec()[38]);
            assert(v@[39]@ == ignored_extensions_spec()[39]);
            assert(v@[40]@ == ignored_extensions_spec()[40]);
        }
    }
    v
}

} // verus!
