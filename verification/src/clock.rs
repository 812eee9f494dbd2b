//! Points in time as the bot shows them: Discord snowflake creation times and
//! the footer timestamps, rendered by chrono.
use vstd::prelude::*;

verus! {

/// The first millisecond since the Unix epoch that `chrono::DateTime<Utc>`
/// can hold (the start of the year -262143).
pub const UTC_MILLIS_MIN: i64 = -8334601228800000;

/// The last millisecond since the Unix epoch that `chrono::DateTime<Utc>` can
/// hold (the end of the year 262142).
pub const UTC_MILLIS_MAX: i64 = 8210266876799999;

/// Discord's epoch, the first millisecond of 2015, in milliseconds since the
/// Unix epoch.
pub const DISCORD_EPOCH_MILLIS: u64 = 1420070400000;

/// Whether `millis` milliseconds after the Unix epoch is an instant that a
/// `chrono::DateTime<Utc>` can hold.
pub open spec fn is_utc_millis(millis: int) -> bool {
    UTC_MILLIS_MIN <= millis <= UTC_MILLIS_MAX
}

/// The pattern the bot renders footer times with: `Jan,  5 2024 01:02:03 PM`.
pub open spec fn footer_time_pattern() -> Seq<char> {
    "%b, %e %Y %r"@
}

/// What chrono renders for the UTC instant `millis` milliseconds after the
/// Unix epoch with the strftime pattern `pattern`.
pub uninterp spec fn utc_strftime(millis: i64, pattern: Seq<char>) -> Seq<char>;

/// Renders an instant with `chrono::DateTime::<Utc>::format`, after
/// `DateTime::from_timestamp_millis` has made the instant from its
/// milliseconds. Claimed: the text is chrono's rendering, a function of the
/// instant and the pattern alone (UTC, no locale). The instant is inside
/// chrono's range, so `from_timestamp_millis` gives `Some`; the pattern is the
/// one the bot uses, which chrono renders without error (an invalid pattern
/// would make `to_string` panic).
#[verifier::external_body]
fn strftime_utc_millis(millis: i64, pattern: &str) -> (text: String)
    requires
        is_utc_millis(millis as int),
        pattern@ == footer_time_pattern(),
    ensures
        text@ == utc_strftime(millis, pattern@),
{
    chrono::DateTime::from_timestamp_millis(millis).unwrap().format(pattern).to_string()
}

/// The footer rendering of the instant `millis` milliseconds after the Unix
/// epoch, `%b, %e %Y %r`.
pub fn footer_time(millis: i64) -> (text: String)
    requires
        is_utc_millis(millis as int),
    ensures
        text@ == utc_strftime(millis, footer_time_pattern()),
{
    strftime_utc_millis(millis, "%b, %e %Y %r")
}

/// When the Discord object with snowflake `id` was made, in milliseconds since
/// the Unix epoch: the top 42 bits of the id count milliseconds since
/// Discord's epoch (serenity's `created_at`).
pub open spec fn snowflake_millis(id: u64) -> int {
    id as int / 4194304 + DISCORD_EPOCH_MILLIS as int
}

/// `snowflake_millis` as the `i64` it always fits in.
pub open spec fn created_at_millis_spec(id: u64) -> i64 {
    snowflake_millis(id) as i64
}

/// The creation time of the snowflake `id`, in milliseconds since the Unix
/// epoch; always an instant chrono can hold.
pub fn created_at_millis(id: u64) -> (millis: i64)
    ensures
        millis as int == snowflake_millis(id),
        millis == created_at_millis_spec(id),
        is_utc_millis(millis as int),
{
    let shifted: u64 = id >> 22;
    assert(shifted == id / 4194304) by (bit_vector)
        requires
            shifted == id >> 22,
    ;
    assert(shifted <= 4398046511103) by (bit_vector)
        requires
            shifted == id >> 22,
    ;
    (shifted + DISCORD_EPOCH_MILLIS) as i64
}


/// A snowflake's creation time is read off its top 42 bits: the id made at
/// `t` milliseconds after Discord's epoch, with any 22 low bits, was created
/// at `t` milliseconds after Discord's epoch; footers render with the
/// pattern `%b, %e %Y %r`.
pub proof fn lemma_snowflake_creation_time(t: u64, low: u64)
    requires
        t < 4398046511104,
        low < 4194304,
    ensures
        created_at_millis_spec((t * 4194304 + low) as u64) as int == t + 1420070400000,
        footer_time_pattern() == "%b, %e %Y %r"@,
{
    let id: int = t * 4194304 + low;
    assert(id / 4194304 == t) by (nonlinear_arith)
        requires
            id == t * 4194304 + low,
            0 <= low < 4194304,
            t >= 0,
    ;
    assert(id < 18446744073709551616) by (nonlinear_arith)
        requires
            id == t * 4194304 + low,
            0 <= low < 4194304,
            0 <= t < 4398046511104,
    ;
}

} // verus!
