//! Building the merge request and classifying its outcome.
//!
//! The request is a plain HTTP POST: its URL is the server address with
//! `/studies/<study id>/merge` appended, its body is the literal JSON text
//! `{"Resources":["<series id>"]}` with the series identifier substituted
//! verbatim. No URL-encoding and no JSON-escaping is applied: identifiers
//! holding `/`, `"` or `\` produce a malformed URL or body, and that is the
//! tool's documented behaviour, not corrected here.

use vstd::prelude::*;
use vstd::string::StringExecFns;
use crate::config::Config;

verus! {

/// The URL the merge is POSTed to: plain concatenation, no normalisation.
pub open spec fn merge_url(server_address: Seq<char>, study_id: Seq<char>) -> Seq<char> {
    server_address + "/studies/"@ + study_id + "/merge"@
}

/// The request body: the series identifier substituted verbatim into the
/// JSON template, with no escaping.
pub open spec fn merge_body(series_id: Seq<char>) -> Seq<char> {
    "{\"Resources\":[\""@ + series_id + "\"]}"@
}

/// Everything the one outbound POST needs: where to send it, the Basic-auth
/// credentials, and the raw body. The caller performs the network exchange.
pub struct MergeRequest {
    pub url: String,
    pub username: String,
    pub password: String,
    pub body: String,
}

/// Builds `{server_address}/studies/{study_id}/merge` by string
/// concatenation alone.
pub fn build_merge_url(server_address: &str, study_id: &str) -> (r: String)
    ensures
        r@ == merge_url(server_address@, study_id@),
{
    let mut url = String::from_str(server_address);
    url.append("/studies/");
    url.append(study_id);
    url.append("/merge");
    proof {
        assert(url@ =~= merge_url(server_address@, study_id@));
    }
    url
}

/// Builds the literal body `{"Resources":["<series_id>"]}`.
pub fn build_merge_body(series_id: &str) -> (r: String)
    ensures
        r@ == merge_body(series_id@),
{
    let mut body = String::from_str("{\"Resources\":[\"");
    body.append(series_id);
    body.append("\"]}");
    proof {
        assert(body@ =~= merge_body(series_id@));
    }
    body
}

/// Assembles the complete request for merging `series_id` into `study_id`
/// on the server named by `config`, with the configured credentials.
pub fn build_merge_request(config: &Config, study_id: &str, series_id: &str) -> (r: MergeRequest)
    ensures
        r.url@ == merge_url(config.server_address@, study_id@),
        r.body@ == merge_body(series_id@),
        r.username@ == config.username@,
        r.password@ == config.password@,
{
    MergeRequest {
        url: build_merge_url(config.server_address.as_str(), study_id),
        username: config.username.clone(),
        password: config.password.clone(),
        body: build_merge_body(series_id),
    }
}

/// An HTTP status counts as success exactly when it lies in the 2xx range.
pub fn is_success_status(status: u16) -> (r: bool)
    ensures
        r == (200 <= status < 300),
{
    200 <= status && status < 300
}

/// The numeral for a single decimal digit.
pub open spec fn dec_digit(d: nat) -> char
    recommends
        d < 10,
{
    if d == 0 {
        '0'
    } else if d == 1 {
        '1'
    } else if d == 2 {
        '2'
    } else if d == 3 {
        '3'
    } else if d == 4 {
        '4'
    } else if d == 5 {
        '5'
    } else if d == 6 {
        '6'
    } else if d == 7 {
        '7'
    } else if d == 8 {
        '8'
    } else {
        '9'
    }
}

/// The decimal numeral for `n`, without leading zeroes — every number a
/// `u16` status field can hold has at most five digits.
pub open spec fn dec_rep(n: nat) -> Seq<char>
    recommends
        n < 100000,
{
    if n < 10 {
        seq![dec_digit(n)]
    } else if n < 100 {
        seq![dec_digit(n / 10), dec_digit(n % 10)]
    } else if n < 1000 {
        seq![dec_digit(n / 100), dec_digit((n / 10) % 10), dec_digit(n % 10)]
    } else if n < 10000 {
        seq![
            dec_digit(n / 1000),
            dec_digit((n / 100) % 10),
            dec_digit((n / 10) % 10),
            dec_digit(n % 10),
        ]
    } else {
        seq![
            dec_digit((n / 10000) % 10),
            dec_digit((n / 1000) % 10),
            dec_digit((n / 100) % 10),
            dec_digit((n / 10) % 10),
            dec_digit(n % 10),
        ]
    }
}

fn dec_digit_str(d: u16) -> (r: &'static str)
    requires
        d < 10,
    ensures
        r@ == seq![dec_digit(d as nat)],
{
    let s: &'static str = if d == 0 {
        "0"
    } else if d == 1 {
        "1"
    } else if d == 2 {
        "2"
    } else if d == 3 {
        "3"
    } else if d == 4 {
        "4"
    } else if d == 5 {
        "5"
    } else if d == 6 {
        "6"
    } else if d == 7 {
        "7"
    } else if d == 8 {
        "8"
    } else {
        "9"
    };
    proof {
        reveal_strlit("0");
        reveal_strlit("1");
        reveal_strlit("2");
        reveal_strlit("3");
        reveal_strlit("4");
        reveal_strlit("5");
        reveal_strlit("6");
        reveal_strlit("7");
        reveal_strlit("8");
        reveal_strlit("9");
        assert(s@ =~= seq![dec_digit(d as nat)]);
    }
    s
}

/// Renders `status` in decimal, exactly as the failure message quotes it.
pub fn status_decimal(status: u16) -> (r: String)
    ensures
        r@ == dec_rep(status as nat),
{
    let mut s = String::new();
    if status >= 10000 {
        s.append(dec_digit_str((status / 10000) % 10));
    }
    if status >= 1000 {
        s.append(dec_digit_str((status / 1000) % 10));
    }
    if status >= 100 {
        s.append(dec_digit_str((status / 100) % 10));
    }
    if status >= 10 {
        s.append(dec_digit_str((status / 10) % 10));
    }
    s.append(dec_digit_str(status % 10));
    proof {
        assert(s@ =~= dec_rep(status as nat));
    }
    s
}

/// The one line the tool prints after the exchange: a success note for any
/// 2xx status, otherwise a failure note quoting the status in decimal. A
/// non-2xx status is an ordinary outcome, not an error.
pub fn outcome_message(status: u16) -> (r: String)
    ensures
        (200 <= status < 300) ==> r@ == "Series merged successfully!"@,
        !(200 <= status < 300) ==> r@ == "Failed to merge series. Status: "@ + dec_rep(
            status as nat,
        ),
{
    if is_success_status(status) {
        String::from_str("Series merged successfully!")
    } else {
        let mut msg = String::from_str("Failed to merge series. Status: ");
        let num = status_decimal(status);
        msg.append(num.as_str());
        msg
    }
}

} // verus!
