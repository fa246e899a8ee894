//! Calendar values carried by the domain entities, and their fixed text
//! renderings: dates as `YYYY-MM-DD`, instants as RFC 3339 with UTC offset
//! `+00:00`.  Components are rendered zero-padded to the usual widths.

use vstd::prelude::*;

use crate::text::{append_pad2, append_pad4, pad2, pad4};

verus! {

/// A calendar date.
#[derive(Debug, Clone, Copy, PartialEq, Eq)]
pub struct Date {
    pub year: u16,
    pub month: u8,
    pub day: u8,
}

/// An instant in UTC, at second precision.
#[derive(Debug, Clone, Copy, PartialEq, Eq)]
pub struct DateTime {
    pub year: u16,
    pub month: u8,
    pub day: u8,
    pub hour: u8,
    pub minute: u8,
    pub second: u8,
}

/// `YYYY-MM-DD` text of a date.
pub open spec fn date_text(d: Date) -> Seq<char> {
    pad4(d.year as nat) + seq!['-'] + pad2(d.month as nat) + seq!['-'] + pad2(d.day as nat)
}

/// RFC 3339 text of a UTC instant: `YYYY-MM-DDTHH:MM:SS+00:00`.
pub open spec fn rfc3339_text(t: DateTime) -> Seq<char> {
    pad4(t.year as nat) + seq!['-'] + pad2(t.month as nat) + seq!['-'] + pad2(t.day as nat)
        + seq!['T'] + pad2(t.hour as nat) + seq![':'] + pad2(t.minute as nat) + seq![':'] + pad2(
        t.second as nat,
    ) + seq!['+', '0', '0', ':', '0', '0']
}

impl Date {
    /// Renders the date as `YYYY-MM-DD`.
    pub fn to_iso8601(&self) -> (s: String)
        ensures
            s@ == date_text(*self),
    {
        let mut out = String::new();
        append_pad4(&mut out, self.year);
        out.push('-');
        append_pad2(&mut out, self.month);
        out.push('-');
        append_pad2(&mut out, self.day);
        proof {
            assert(out@ =~= date_text(*self));
        }
        out
    }
}

impl DateTime {
    /// Renders the instant as RFC 3339 text with offset `+00:00`.
    pub fn to_rfc3339(&self) -> (s: String)
        ensures
            s@ == rfc3339_text(*self),
    {
        let mut out = String::new();
        append_pad4(&mut out, self.year);
        out.push('-');
        append_pad2(&mut out, self.month);
        out.push('-');
        append_pad2(&mut out, self.day);
        out.push('T');
        append_pad2(&mut out, self.hour);
        out.push(':');
        append_pad2(&mut out, self.minute);
        out.push(':');
        append_pad2(&mut out, self.second);
        out.push('+');
        out.push('0');
        out.push('0');
        out.push(':');
        out.push('0');
        out.push('0');
        proof {
            assert(out@ =~= rfc3339_text(*self));
        }
        out
    }
}

} // verus!
