//! The calls into other crates. Verus takes the contract of each function
//! here on trust; everything else in the crate is proved from them.

use vstd::prelude::*;
use vstd::string::StringSliceAdditionalSpecFns;
use crate::item::{FeedItem, FeedItemView};

verus! {

/// Whether a byte is an ASCII letter or digit.
pub open spec fn is_ascii_alphanumeric(byte: u8) -> bool {
    ||| 0x30 <= byte <= 0x39
    ||| 0x41 <= byte <= 0x5a
    ||| 0x61 <= byte <= 0x7a
}

/// The upper-case hexadecimal digit of a value below sixteen.
pub open spec fn hex_digit(value: u8) -> char {
    if value < 10 {
        (0x30 + value) as u8 as char
    } else {
        (0x41 + value - 10) as u8 as char
    }
}

/// One byte as it stands in a percent-encoded text: letters and digits as
/// they are, any other byte as `%` and its two hexadecimal digits.
pub open spec fn percent_encoded_byte(byte: u8) -> Seq<char> {
    if is_ascii_alphanumeric(byte) {
        seq![byte as char]
    } else {
        seq!['%', hex_digit(byte / 16), hex_digit(byte % 16)]
    }
}

/// The percent-encoding of a byte string that leaves only ASCII letters and
/// digits as they are.
pub open spec fn percent_encoded(bytes: Seq<u8>) -> Seq<char> {
    bytes.map_values(|byte: u8| percent_encoded_byte(byte)).flatten()
}

/// Calls `percent_encoding::utf8_percent_encode` with the set
/// `NON_ALPHANUMERIC` and collects what it yields.
///
/// Trusted: the result is the UTF-8 encoding of `text`, byte by byte, with
/// every byte that is not an ASCII letter or digit replaced by `%` and its
/// two upper-case hexadecimal digits.
#[verifier::external_body]
pub(crate) fn percent_encode(text: &str) -> (encoded: String)
    ensures
        encoded@ == percent_encoded(text.spec_bytes()),
{
    percent_encoding::utf8_percent_encode(text, percent_encoding::NON_ALPHANUMERIC).to_string()
}

/// The first second that RFC 2822 can write: the start of the year 0.
pub const RFC2822_MIN: i64 = -62_167_219_200;

/// The last second that RFC 2822 can write: the end of the year 9999.
pub const RFC2822_MAX: i64 = 253_402_300_799;

/// The RFC 2822 text of the UTC time that lies `secs` seconds after the
/// start of 1970, as `chrono` writes it; `None` where `chrono` has no such
/// time.
pub uninterp spec fn rfc2822_date(secs: i64) -> Option<Seq<char>>;

/// Calls `chrono::DateTime::from_timestamp` with no nanoseconds and, where
/// that yields a time, `chrono::DateTime::to_rfc2822` on it.
///
/// Trusted: the result depends on `secs` alone. The bounds keep the year
/// within 0 to 9999, outside of which `to_rfc2822` panics.
#[verifier::external_body]
pub(crate) fn format_rfc2822(secs: i64) -> (date: Option<String>)
    requires
        RFC2822_MIN <= secs <= RFC2822_MAX,
    ensures
        date.deep_view() == rfc2822_date(secs),
{
    chrono::DateTime::from_timestamp(secs, 0).map(|time| time.to_rfc2822())
}

/// The RSS 2.0 document that the `rss` crate writes for a channel that
/// holds one item for each of the given items, in order, and nothing else.
/// An item of the channel has the title, link, description and publication
/// date of the given item, and an enclosure with its enclosure URL.
pub uninterp spec fn feed_document(items: Seq<FeedItemView>) -> Seq<char>;

/// Builds every item with `rss::ItemBuilder` (and its enclosure with
/// `rss::EnclosureBuilder`), the channel of these items with
/// `rss::ChannelBuilder`, and calls `to_string` on the channel.
///
/// Trusted: the result depends on the texts of `items` alone.
#[verifier::external_body]
pub(crate) fn make_channel(items: &Vec<FeedItem>) -> (document: String)
    ensures
        document@ == feed_document(items.deep_view()),
{
    let entries = items.iter().map(|item| {
        let enclosure = item.enclosure.clone().map(|url| rss::EnclosureBuilder::default().url(url).build());
        rss::ItemBuilder::default()
            .title(item.title.clone())
            .link(item.link.clone())
            .description(item.description.clone())
            .enclosure(enclosure)
            .pub_date(item.pub_date.clone())
            .build()
    });
    rss::ChannelBuilder::default().items(entries.collect::<Vec<rss::Item>>()).build().to_string()
}

} // verus!
