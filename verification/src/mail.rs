//! The mails the server sends: their language, links, subjects and the
//! address they go to.

use vstd::prelude::*;

use crate::calendar::{month_before, month_before_spec, valid_month};
use crate::error::Error;
use crate::management::{charger_password_verdict, check_charger_password};
use crate::ids::{uuid_text, uuid_to_string};
use crate::text::{concat, decimal_digits, joined, str_eq_ignore_ascii_case, str_equals, eq_ignore_ascii_case};

verus! {

/// The sender of every mail.
pub const MAIL_SENDER: &'static str = "Warp <warp@tinkerforge.com>";

/// The language a request asks for with its `X-Lang` header, as a request
/// extractor hands it over.
#[derive(Debug, Clone)]
pub struct Lang(pub String);

impl Lang {
    /// The language text.
    pub fn into_string(self) -> (s: String)
        ensures
            s == self.0,
    {
        self.0
    }
}

/// The language of a request given its headers, each a name and the value
/// if it is visible ASCII text: the value of the first header named
/// `X-Lang` (in any case), or nothing when there is none or its value is
/// not text.
pub open spec fn lang_of_headers(headers: Seq<(Seq<char>, Option<Seq<char>>)>) -> Seq<char>
    decreases headers.len(),
{
    if headers.len() == 0 {
        Seq::<char>::empty()
    } else if eq_ignore_ascii_case(headers[0].0, "x-lang"@) {
        match headers[0].1 {
            Some(v) => v,
            None => Seq::<char>::empty(),
        }
    } else {
        lang_of_headers(headers.drop_first())
    }
}

/// The views of the headers.
pub open spec fn header_views(headers: Seq<(String, Option<String>)>) -> Seq<(Seq<char>, Option<Seq<char>>)> {
    headers.map_values(|h: (String, Option<String>)| (h.0@, match h.1 { Some(v) => Some(v@), None => None }))
}

/// Read the language of a request from its headers.
pub fn lang_from_headers(headers: &Vec<(String, Option<String>)>) -> (r: Lang)
    ensures
        r.0@ == lang_of_headers(header_views(headers@)),
{
    let ghost hv = header_views(headers@);
    assert(hv.skip(0) =~= hv);
    let mut i: usize = 0;
    while i < headers.len()
        invariant
            i <= headers@.len(),
            hv == header_views(headers@),
            lang_of_headers(hv) == lang_of_headers(hv.skip(i as int)),
        decreases headers@.len() - i,
    {
        let ghost rest = hv.skip(i as int);
        assert(rest[0] == hv[i as int]);
        assert(rest.drop_first() == hv.skip(i as int + 1));
        if str_eq_ignore_ascii_case(headers[i].0.as_str(), "x-lang") {
            proof {
                reveal_strlit("x-lang");
            }
            return match &headers[i].1 {
                Some(v) => Lang(v.clone()),
                None => Lang(String::new()),
            };
        }
        proof {
            reveal_strlit("x-lang");
        }
        i = i + 1;
    }
    assert(hv.skip(i as int).len() == 0);
    Lang(String::new())
}

/// Whether a mail goes out in German: for the languages `de` and `de-DE`.
pub open spec fn is_german(lang: Seq<char>) -> bool {
    lang == "de"@ || lang == "de-DE"@
}

/// Whether the mail for `lang` is German.
pub fn mail_is_german(lang: &str) -> (r: bool)
    ensures
        r == is_german(lang@),
{
    str_equals(lang, "de") || str_equals(lang, "de-DE")
}

/// Whether month names are written in German: only for the language `de`.
pub fn month_names_german(lang: &str) -> (r: bool)
    ensures
        r == (lang@ == "de"@),
{
    str_equals(lang, "de")
}

/// The link that verifies an email address.
pub open spec fn verification_link_text(frontend_url: Seq<char>, verification: u128) -> Seq<char> {
    frontend_url + "/api/auth/verify?id="@ + uuid_text(verification)
}

/// The link of a verification mail.
pub fn verification_link(frontend_url: &str, verification: u128) -> (r: String)
    ensures
        r@ == verification_link_text(frontend_url@, verification),
{
    let id = uuid_to_string(verification);
    let parts: [&str; 3] = [frontend_url, "/api/auth/verify?id=", id.as_str()];
    let r = concat(&parts);
    proof {
        assert(parts@.map_values(|p: &str| p@) == seq![frontend_url@, "/api/auth/verify?id="@, id@]);
        reveal_with_fuel(joined, 4);
    }
    r
}

/// Where a successful verification sends the browser.
pub fn verified_redirect(frontend_url: &str) -> (r: String)
    ensures
        r@ == frontend_url@ + "?verified=true"@,
{
    let parts: [&str; 2] = [frontend_url, "?verified=true"];
    let r = concat(&parts);
    proof {
        assert(parts@.map_values(|p: &str| p@) == seq![frontend_url@, "?verified=true"@]);
        reveal_with_fuel(joined, 3);
    }
    r
}

/// The link of a recovery mail.
pub open spec fn recovery_link_text(frontend_url: Seq<char>, token: u128, email: Seq<char>) -> Seq<char> {
    frontend_url + "/recovery?token="@ + uuid_text(token) + "&email="@ + email
}

/// The link of a recovery mail.
pub fn recovery_link(frontend_url: &str, token: u128, email: &str) -> (r: String)
    ensures
        r@ == recovery_link_text(frontend_url@, token, email@),
{
    let id = uuid_to_string(token);
    let parts: [&str; 5] = [frontend_url, "/recovery?token=", id.as_str(), "&email=", email];
    let r = concat(&parts);
    proof {
        assert(parts@.map_values(|p: &str| p@) == seq![frontend_url@, "/recovery?token="@, id@, "&email="@, email@]);
        reveal_with_fuel(joined, 6);
    }
    r
}

/// The subject of the mail that asks to verify an address.
pub fn verification_subject(lang: &str) -> (r: &'static str)
    ensures
        r@ == (if is_german(lang@) { "Email verifizieren"@ } else { "Verify email"@ }),
{
    if mail_is_german(lang) { "Email verifizieren" } else { "Verify email" }
}

/// The subject of the mail sent right after registering.
pub const REGISTRATION_SUBJECT: &'static str = "Verify email";

/// The subject of the recovery mail.
pub const RECOVERY_SUBJECT: &'static str = "Password Recovery";

/// The subject of a mail with a charge log.
pub open spec fn chargelog_subject_text(lang: Seq<char>, month: Seq<char>, display_name: Seq<char>, monthly_send: bool) -> Seq<char> {
    if is_german(lang) {
        if monthly_send {
            "Dein Ladelog für "@ + month + " von "@ + display_name
        } else {
            "Dein Ladelog von "@ + display_name
        }
    } else {
        if monthly_send {
            "Your Charge Log for "@ + month + " from "@ + display_name
        } else {
            "Your Charge Log from "@ + display_name
        }
    }
}

/// The subject of a mail with a charge log of `display_name`: a monthly
/// log names the month.
pub fn chargelog_subject(lang: &str, month: &str, display_name: &str, monthly_send: bool) -> (r: String)
    ensures
        r@ == chargelog_subject_text(lang@, month@, display_name@, monthly_send),
{
    let german = mail_is_german(lang);
    if monthly_send {
        let parts: [&str; 4] = if german {
            ["Dein Ladelog für ", month, " von ", display_name]
        } else {
            ["Your Charge Log for ", month, " from ", display_name]
        };
        let r = concat(&parts);
        proof {
            if german {
                assert(parts@.map_values(|p: &str| p@) == seq!["Dein Ladelog für "@, month@, " von "@, display_name@]);
            } else {
                assert(parts@.map_values(|p: &str| p@) == seq!["Your Charge Log for "@, month@, " from "@, display_name@]);
            }
            reveal_with_fuel(joined, 5);
        }
        r
    } else {
        let parts: [&str; 2] = if german {
            ["Dein Ladelog von ", display_name]
        } else {
            ["Your Charge Log from ", display_name]
        };
        let r = concat(&parts);
        proof {
            if german {
                assert(parts@.map_values(|p: &str| p@) == seq!["Dein Ladelog von "@, display_name@]);
            } else {
                assert(parts@.map_values(|p: &str| p@) == seq!["Your Charge Log from "@, display_name@]);
            }
            reveal_with_fuel(joined, 3);
        }
        r
    }
}

/// The English name of a month (1 to 12).
pub open spec fn english_month_name(month: u32) -> Seq<char> {
    if month == 1 { "January"@ } else if month == 2 { "February"@ } else if month == 3 { "March"@ }
    else if month == 4 { "April"@ } else if month == 5 { "May"@ } else if month == 6 { "June"@ }
    else if month == 7 { "July"@ } else if month == 8 { "August"@ } else if month == 9 { "September"@ }
    else if month == 10 { "October"@ } else if month == 11 { "November"@ } else { "December"@ }
}

/// The German name of a month (1 to 12).
pub open spec fn german_month_name(month: u32) -> Seq<char> {
    if month == 1 { "Januar"@ } else if month == 2 { "Februar"@ } else if month == 3 { "März"@ }
    else if month == 4 { "April"@ } else if month == 5 { "Mai"@ } else if month == 6 { "Juni"@ }
    else if month == 7 { "Juli"@ } else if month == 8 { "August"@ } else if month == 9 { "September"@ }
    else if month == 10 { "Oktober"@ } else if month == 11 { "November"@ } else { "Dezember"@ }
}

/// A year as the pattern `%Y` writes it: its digits padded with zeros to
/// four, with a sign before a year outside 0 to 9999.
pub open spec fn year_text(year: i32) -> Seq<char> {
    let magnitude: nat = if year < 0 { (-year) as nat } else { year as nat };
    let digits = decimal_digits(magnitude);
    let padded = if digits.len() < 4 { Seq::new((4 - digits.len()) as nat, |i: int| '0') + digits } else { digits };
    if year < 0 {
        seq!['-'] + padded
    } else if year > 9999 {
        seq!['+'] + padded
    } else {
        padded
    }
}

/// The month and year as the pattern `%B %Y` writes them.
pub open spec fn english_month_label(year: i32, month: u32) -> Seq<char> {
    english_month_name(month) + seq![' '] + year_text(year)
}

/// The month and year as the pattern `%B %Y` writes them in the locale
/// `de_DE`.
pub open spec fn german_month_label(year: i32, month: u32) -> Seq<char> {
    german_month_name(month) + seq![' '] + year_text(year)
}

/// Formats the first day of the month with `format("%B %Y")`. Trusted: the
/// text is the English month name and the year as the crate's formatting
/// code writes them (`long_months` of the default locale, `write_year`);
/// nothing for a month that is no calendar month.
#[verifier::external_body]
fn format_month_english(year: i32, month: u32) -> (r: Option<String>)
    ensures
        match r {
            Some(t) => valid_month(year, month) && t@ == english_month_label(year, month),
            None => !valid_month(year, month),
        },
{
    chrono::NaiveDate::from_ymd_opt(year, month, 1).map(|d| d.format("%B %Y").to_string())
}

/// Formats the first day of the month with
/// `format_localized("%B %Y", Locale::de_DE)`. Trusted: the text is the
/// German month name (the `de_DE` table of `pure-rust-locales`) and the
/// year as `write_year` writes it; nothing for a month that is no calendar
/// month.
#[verifier::external_body]
fn format_month_german(year: i32, month: u32) -> (r: Option<String>)
    ensures
        match r {
            Some(t) => valid_month(year, month) && t@ == german_month_label(year, month),
            None => !valid_month(year, month),
        },
{
    chrono::NaiveDate::from_ymd_opt(year, month, 1)
        .map(|d| d.format_localized("%B %Y", chrono::Locale::de_DE).to_string())
}

/// The month a charge log mailed in month `month` of `year` covers: the
/// month before, written in German for the language `de` and in English
/// otherwise; nothing when that month is no calendar month.
pub open spec fn chargelog_month_text(year: i32, month: u32, lang: Seq<char>) -> Option<Seq<char>> {
    match month_before_spec(year, month) {
        None => None,
        Some((y, m)) => Some(if lang == "de"@ { german_month_label(y, m) } else { english_month_label(y, m) }),
    }
}

/// The month a charge log mailed in month `month` of `year` covers (see
/// `chargelog_month_text`).
pub fn chargelog_month(year: i32, month: u32, lang: &str) -> (r: Option<String>)
    ensures
        match chargelog_month_text(year, month, lang@) {
            None => r is None,
            Some(t) => r matches Some(s) && s@ == t,
        },
{
    let (y, m) = match month_before(year, month) {
        Some(p) => p,
        None => return None,
    };
    if month_names_german(lang) {
        format_month_german(y, m)
    } else {
        format_month_english(y, m)
    }
}

/// The mail that carries a charge log to a user.
#[derive(Debug, Clone)]
pub struct ChargelogMail {
    /// The user's login address.
    pub to: String,
    pub subject: String,
    /// The name the uploaded log is attached under.
    pub attachment_name: String,
    /// The month the log covers, as the mail names it.
    pub month: String,
}

/// The one mail that a charge log upload sends, or why none goes out: the
/// charger's password must match its stored hash (a wrong one is refused as
/// wrong charger credentials, an unreadable hash is an internal error), and
/// the month before `month` of `year` must be a calendar month (else an
/// internal error).
pub fn chargelog_mail(
    password: &str,
    stored_hash: &str,
    user_email: String,
    filename: String,
    display_name: &str,
    lang: &str,
    monthly_send: bool,
    year: i32,
    month: u32,
) -> (r: Result<ChargelogMail, Error>)
    ensures
        charger_password_verdict(stored_hash@, password@, Error::ChargerCredentialsWrong) matches Err(e)
            ==> r == Err::<ChargelogMail, Error>(e),
        charger_password_verdict(stored_hash@, password@, Error::ChargerCredentialsWrong) is Ok ==> match chargelog_month_text(year, month, lang@) {
            None => r == Err::<ChargelogMail, Error>(Error::InternalError),
            Some(m) => r matches Ok(mail) && mail.to == user_email && mail.attachment_name == filename
                && mail.month@ == m && mail.subject@ == chargelog_subject_text(lang@, m, display_name@, monthly_send),
        },
{
    if let Err(e) = check_charger_password(password, stored_hash, Error::ChargerCredentialsWrong) {
        return Err(e);
    }
    let month_text = match chargelog_month(year, month, lang) {
        Some(t) => t,
        None => return Err(Error::InternalError),
    };
    let subject = chargelog_subject(lang, month_text.as_str(), display_name, monthly_send);
    Ok(ChargelogMail { to: user_email, subject, attachment_name: filename, month: month_text })
}

/// The subject of the daily monitoring mail.
pub const MONITORING_SUBJECT: &'static str = "Monitoring mail";

/// Seconds between two monitoring mails.
pub const MONITORING_INTERVAL_SECS: u64 = 86400;

/// Monitoring mails go out only when both the server's name and the
/// monitoring address are configured.
pub fn monitoring_enabled(server_name: &Option<String>, monitoring_email: &Option<String>) -> (r: bool)
    ensures
        r == (server_name is Some && monitoring_email is Some),
{
    server_name.is_some() && monitoring_email.is_some()
}

/// The address a user's mails go to: the delivery address if the user set
/// one, else the login address.
pub fn delivery_address(delivery_email: Option<String>, email: String) -> (r: String)
    ensures
        r == match delivery_email { Some(d) => d, None => email },
{
    match delivery_email {
        Some(d) => d,
        None => email,
    }
}

} // verus!
