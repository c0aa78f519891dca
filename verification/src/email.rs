//! The warning e-mails the server sends, and the checked message that the
//! SMTP transport is handed.
use vstd::prelude::*;
use crate::config::EmailConfig;
use crate::decimal::{
    Decimal, DecimalDifference, bigdecimal_display, decimal_to_string, difference_to_string,
};

verus! {

/// Subject and HTML body of an e-mail.
pub struct EmailContent {
    pub subject: String,
    pub body: String,
}

pub const SERVER_STARTED_SUBJECT: &'static str = "Server wurde gestartet";

pub const SERVER_STARTED_TEXT: &'static str = "\n        <!DOCTYPE html>\n        <html>\n          <head>\n            <title>Schili-Sensordaten-Server wird gestartet</title>\n            <meta http-equiv=\"content-type\" content=\"text/html; charset=utf-8\" />\n          </head>\n          <body>\n            <h1>Schili-Sensordaten-Server wird gestartet.</h1>\n            <p>Sie sind nun Teil eines sehr exclusiven Klubs \n            und erhalten E-Mails von meinem Schildkr\u{f6}ten-\u{dc}berwachungserver.</p>\n            <h2>Empfangen Sie den Spam mit Ehre, Freude und einem offenen Herzen. \u{2764}\u{fe0f}</h2>\n          </body>\n        </html>\n        ";

pub const LOW_BATT_SUBJECT: &'static str = "Niedrige Batteriespannung";

pub const LOW_BATT_TEXT_1: &'static str = "\n        <!DOCTYPE html>\n        <html>\n          <head>\n            <title>Niedrige Batteriespannung wurde gemessen!</title>\n            <meta http-equiv=\"content-type\" content=\"text/html; charset=utf-8\" />\n          </head>\n          <body>\n            <h1>Niedrige Batteriespannung wurde gemessen!</h1>\n            <h1>Batteriespannung: ";

pub const LOW_BATT_TEXT_2: &'static str = " Volt</h1>\n          </body>\n        </html>\n        ";

pub const HIGH_CHIP_TEMP_SUBJECT: &'static str = "Hohe Prozessortemperatur";

pub const HIGH_CHIP_TEMP_TEXT_1: &'static str = "\n        <!DOCTYPE html>\n        <html>\n          <head>\n            <title>Hohe Prozessortemperatur wurde gemessen!</title>\n            <meta http-equiv=\"content-type\" content=\"text/html; charset=utf-8\" />\n          </head>\n          <body>\n            <h1>Hohe Prozessortemperatur wurde gerade gemessen!</h1>\n            <h1>Temperatur: ";

pub const HIGH_TEMP_SUBJECT: &'static str = "Hohe Temperatur";

pub const HIGH_TEMP_TEXT_1: &'static str = "\n        <!DOCTYPE html>\n        <html>\n          <head>\n            <title>Hohe temperatur wurde gemessen!</title>\n            <meta http-equiv=\"content-type\" content=\"text/html; charset=utf-8\" />\n          </head>\n          <body>\n            <h1>Hohe temperatur wurde gerade gemessen!</h1>\n            <h1>Temperatur: ";

pub const LOW_TEMP_SUBJECT: &'static str = "Niedrige Temperatur";

pub const LOW_TEMP_TEXT_1: &'static str = "\n        <!DOCTYPE html>\n        <html>\n          <head>\n            <title>Niedrige temperatur wurde gerade gemessen!</title>\n            <meta http-equiv=\"content-type\" content=\"text/html; charset=utf-8\" />\n          </head>\n          <body>\n            <h1>Niedrige temperatur wurde gerade gemessen!</h1>\n            <h1>Temperatur: ";

/// End of the body of every temperature warning.
pub const TEMP_TEXT_2: &'static str = " Grad Celsius</h1>\n          </body>\n        </html>\n        ";

/// The e-mail announcing that the server starts.
pub fn server_started_email() -> (r: EmailContent)
    ensures
        r.subject@ == SERVER_STARTED_SUBJECT@,
        r.body@ == SERVER_STARTED_TEXT@,
{
    EmailContent {
        subject: String::from_str(SERVER_STARTED_SUBJECT),
        body: String::from_str(SERVER_STARTED_TEXT),
    }
}

/// `head`, then `value` as `BigDecimal` displays it, then `tail`.
fn body_with_value(head: &str, value: &Decimal, tail: &str) -> (r: String)
    ensures
        r@ == head@ + bigdecimal_display(value.mantissa as int, value.scale as int) + tail@,
{
    let mut body = String::from_str(head);
    let v = decimal_to_string(value);
    body.append(v.as_str());
    body.append(tail);
    body
}

/// The warning for a low battery voltage.
pub fn low_batt_voltage_warning_email(batt_voltage: &Decimal) -> (r: EmailContent)
    ensures
        r.subject@ == LOW_BATT_SUBJECT@,
        r.body@ == LOW_BATT_TEXT_1@ + bigdecimal_display(
            batt_voltage.mantissa as int,
            batt_voltage.scale as int,
        ) + LOW_BATT_TEXT_2@,
{
    EmailContent {
        subject: String::from_str(LOW_BATT_SUBJECT),
        body: body_with_value(LOW_BATT_TEXT_1, batt_voltage, LOW_BATT_TEXT_2),
    }
}

/// The warning for a high processor temperature.
pub fn high_chip_temp_warning_email(temp_celsius: &Decimal) -> (r: EmailContent)
    ensures
        r.subject@ == HIGH_CHIP_TEMP_SUBJECT@,
        r.body@ == HIGH_CHIP_TEMP_TEXT_1@ + bigdecimal_display(
            temp_celsius.mantissa as int,
            temp_celsius.scale as int,
        ) + TEMP_TEXT_2@,
{
    EmailContent {
        subject: String::from_str(HIGH_CHIP_TEMP_SUBJECT),
        body: body_with_value(HIGH_CHIP_TEMP_TEXT_1, temp_celsius, TEMP_TEXT_2),
    }
}

/// The warning for a high temperature.
pub fn high_temp_warning_email(temp_celsius: &Decimal) -> (r: EmailContent)
    ensures
        r.subject@ == HIGH_TEMP_SUBJECT@,
        r.body@ == HIGH_TEMP_TEXT_1@ + bigdecimal_display(
            temp_celsius.mantissa as int,
            temp_celsius.scale as int,
        ) + TEMP_TEXT_2@,
{
    EmailContent {
        subject: String::from_str(HIGH_TEMP_SUBJECT),
        body: body_with_value(HIGH_TEMP_TEXT_1, temp_celsius, TEMP_TEXT_2),
    }
}

/// The warning for a low temperature.
pub fn low_temp_warning_email(temp_celsius: &Decimal) -> (r: EmailContent)
    ensures
        r.subject@ == LOW_TEMP_SUBJECT@,
        r.body@ == LOW_TEMP_TEXT_1@ + bigdecimal_display(
            temp_celsius.mantissa as int,
            temp_celsius.scale as int,
        ) + TEMP_TEXT_2@,
{
    EmailContent {
        subject: String::from_str(LOW_TEMP_SUBJECT),
        body: body_with_value(LOW_TEMP_TEXT_1, temp_celsius, TEMP_TEXT_2),
    }
}

/// The text `BigDecimal` displays for `d`.
pub open spec fn decimal_display(d: Decimal) -> Seq<char> {
    bigdecimal_display(d.mantissa as int, d.scale as int)
}

pub const STRONG_INCREASE_SUBJECT: &'static str = "Starker Temperaturanstieg";

pub const STRONG_INCREASE_TEXT_1: &'static str = "\n        <!DOCTYPE html>\n        <html>\n          <head>\n            <title>Starker Temperaturanstieg wurde gemessen!</title>\n            <meta http-equiv=\"content-type\" content=\"text/html; charset=utf-8\" />\n          </head>\n          <body>\n            <h1>Starker Temperaturanstieg wurde gerade gemessen!</h1>\n            <h1>Temperatur: ";

pub const STRONG_DECREASE_SUBJECT: &'static str = "Starker Temperaturabfall";

pub const STRONG_DECREASE_TEXT_1: &'static str = "\n        <!DOCTYPE html>\n        <html>\n          <head>\n            <title>Starker Temperaturabfall wurde gemessen!</title>\n            <meta http-equiv=\"content-type\" content=\"text/html; charset=utf-8\" />\n          </head>\n          <body>\n            <h1>Starker Temperaturabfall wurde gerade gemessen!</h1>\n            <h1>Temperatur: ";

/// Between the current and the previous temperature of a strong change.
pub const STRONG_CHANGE_TEXT_PREV: &'static str = " Grad Celsius</h1>\n            <h1>Vorherige Temperatur: ";

/// Between the previous temperature and the difference of a strong change.
pub const STRONG_CHANGE_TEXT_DIFF: &'static str = " Grad Celsius</h1>\n            <h1>Differenz: ";

/// The text `BigDecimal` displays for a difference.
pub open spec fn difference_display(d: DecimalDifference) -> Seq<char> {
    bigdecimal_display(d.digits(), d.scale() as int)
}

/// The body of a strong-change warning: `head`, then the current reading,
/// the previous reading and their difference.
pub open spec fn strong_change_body(
    head: Seq<char>,
    cur: Decimal,
    prev: Decimal,
    diff: DecimalDifference,
) -> Seq<char> {
    head + decimal_display(cur) + STRONG_CHANGE_TEXT_PREV@ + decimal_display(prev)
        + STRONG_CHANGE_TEXT_DIFF@ + difference_display(diff) + TEMP_TEXT_2@
}

fn strong_change_body_exec(
    head: &str,
    cur: &Decimal,
    prev: &Decimal,
    diff: &DecimalDifference,
) -> (r: String)
    ensures
        r@ == strong_change_body(head@, *cur, *prev, *diff),
{
    let mut body = String::from_str(head);
    let c = decimal_to_string(cur);
    body.append(c.as_str());
    body.append(STRONG_CHANGE_TEXT_PREV);
    let p = decimal_to_string(prev);
    body.append(p.as_str());
    body.append(STRONG_CHANGE_TEXT_DIFF);
    let d = difference_to_string(diff);
    body.append(d.as_str());
    body.append(TEMP_TEXT_2);
    body
}

/// The warning for a strong rise of the temperature against the previous
/// reading, with the current and the previous reading and the difference.
pub fn strong_temp_increase_warning_email(cur: &Decimal, prev: &Decimal, diff: &DecimalDifference) -> (r:
    EmailContent)
    ensures
        r.subject@ == STRONG_INCREASE_SUBJECT@,
        r.body@ == strong_change_body(STRONG_INCREASE_TEXT_1@, *cur, *prev, *diff),
{
    EmailContent {
        subject: String::from_str(STRONG_INCREASE_SUBJECT),
        body: strong_change_body_exec(STRONG_INCREASE_TEXT_1, cur, prev, diff),
    }
}

/// The warning for a strong fall of the temperature against the previous
/// reading, with the current and the previous reading and the difference.
pub fn strong_temp_decrease_warning_email(cur: &Decimal, prev: &Decimal, diff: &DecimalDifference) -> (r:
    EmailContent)
    ensures
        r.subject@ == STRONG_DECREASE_SUBJECT@,
        r.body@ == strong_change_body(STRONG_DECREASE_TEXT_1@, *cur, *prev, *diff),
{
    EmailContent {
        subject: String::from_str(STRONG_DECREASE_SUBJECT),
        body: strong_change_body_exec(STRONG_DECREASE_TEXT_1, cur, prev, diff),
    }
}

/// Whether `lettre` accepts the text as an e-mail address
/// (`<lettre::Address as FromStr>::from_str` succeeds).
pub uninterp spec fn lettre_accepts_address(address: Seq<char>) -> bool;

/// `address.parse::<lettre::Address>()` succeeds. An accepted address
/// holds an `@`: the text is split at its last `@` into user and domain,
/// and a text without one is refused (`AddressError::MissingParts`).
#[verifier::external_body]
fn is_valid_address(address: &str) -> (r: bool)
    ensures
        r == lettre_accepts_address(address@),
        r ==> address@.contains('@'),
{
    address.parse::<lettre::Address>().is_ok()
}

/// A message ready for the SMTP transport: all addresses are ones `lettre`
/// accepts, and there is at least one recipient.
pub struct EmailMessage {
    pub author_name: String,
    pub from_address: String,
    pub to_addresses: Vec<String>,
    pub subject: String,
    pub html_body: String,
}

/// Why a message could not be built.
#[derive(Debug, PartialEq, Eq, Structural, Clone, Copy)]
pub enum EmailError {
    /// The sender address is not accepted.
    InvalidFromAddress,
    /// The recipient address at this position is not accepted.
    InvalidToAddress(usize),
    /// There is no recipient.
    MissingTo,
}

/// The index of the first recipient address `lettre` refuses, if any.
pub open spec fn first_invalid_address(addresses: Seq<String>) -> Option<nat> {
    if exists|i: int| 0 <= i < addresses.len() && !lettre_accepts_address(addresses[i]@) {
        Some(
            choose|i: nat|
                i < addresses.len() && !lettre_accepts_address(addresses[i as int]@) && forall|
                    j: int,
                | 0 <= j < i ==> lettre_accepts_address(#[trigger] addresses[j]@),
        )
    } else {
        None
    }
}

/// Builds the message for `email_text` with `subject`, from the configured
/// author to all configured recipients, checking the addresses in the
/// order the message builder reads them: sender first, then recipients.
pub fn create_email_message(email_conf: &EmailConfig, email_text: String, subject: &str) -> (r:
    Result<EmailMessage, EmailError>)
    ensures
        !lettre_accepts_address(email_conf.from_address@) ==> r == Err::<EmailMessage, EmailError>(
            EmailError::InvalidFromAddress,
        ),
        !email_conf.from_address@.contains('@') ==> r == Err::<EmailMessage, EmailError>(
            EmailError::InvalidFromAddress,
        ),
        r is Ok ==> forall|i: int|
            0 <= i < email_conf.to_addresses@.len() ==> #[trigger] email_conf.to_addresses@[i]@.contains(
                '@',
            ),
        lettre_accepts_address(email_conf.from_address@) ==> match first_invalid_address(
            email_conf.to_addresses@,
        ) {
            Some(i) => r == Err::<EmailMessage, EmailError>(EmailError::InvalidToAddress(i as usize)),
            None => if email_conf.to_addresses@.len() == 0 {
                r == Err::<EmailMessage, EmailError>(EmailError::MissingTo)
            } else {
                r matches Ok(m) && m.author_name@ == email_conf.author_name@
                    && m.from_address@ == email_conf.from_address@ && m.to_addresses@.len()
                    == email_conf.to_addresses@.len() && (forall|i: int|
                    0 <= i < m.to_addresses@.len() ==> #[trigger] m.to_addresses@[i]@
                        == email_conf.to_addresses@[i]@) && m.subject@ == subject@
                    && m.html_body@ == email_text@
            },
        },
{
    if !is_valid_address(email_conf.from_address.as_str()) {
        return Err(EmailError::InvalidFromAddress);
    }
    let mut to: Vec<String> = Vec::new();
    let mut i: usize = 0;
    while i < email_conf.to_addresses.len()
        invariant
            lettre_accepts_address(email_conf.from_address@),
            email_conf.from_address@.contains('@'),
            i <= email_conf.to_addresses@.len(),
            to@.len() == i,
            forall|k: int| 0 <= k < i ==> #[trigger] to@[k]@ == email_conf.to_addresses@[k]@,
            forall|k: int| 0 <= k < i ==> lettre_accepts_address(
                #[trigger] email_conf.to_addresses@[k]@,
            ),
            forall|k: int| 0 <= k < i ==> (#[trigger] email_conf.to_addresses@[k]@).contains('@'),
        decreases email_conf.to_addresses@.len() - i,
    {
        if !is_valid_address(email_conf.to_addresses[i].as_str()) {
            proof {
                let addrs = email_conf.to_addresses@;
                assert(!lettre_accepts_address(addrs[i as int]@));
                let c = choose|c: nat|
                    c < addrs.len() && !lettre_accepts_address(addrs[c as int]@) && forall|j: int|
                        0 <= j < c ==> lettre_accepts_address(#[trigger] addrs[j]@);
                assert(c < addrs.len() && !lettre_accepts_address(addrs[c as int]@) && forall|j: int|
                    0 <= j < c ==> lettre_accepts_address(#[trigger] addrs[j]@)) by {
                    assert(forall|j: int| 0 <= j < i ==> lettre_accepts_address(#[trigger] addrs[j]@));
                }
                if c < i {
                    assert(lettre_accepts_address(addrs[c as int]@));
                } else if c > i {
                    assert(lettre_accepts_address(addrs[i as int]@));
                }
            }
            return Err(EmailError::InvalidToAddress(i));
        }
        to.push(email_conf.to_addresses[i].clone());
        i = i + 1;
    }
    if to.len() == 0 {
        return Err(EmailError::MissingTo);
    }
    Ok(EmailMessage {
        author_name: email_conf.author_name.clone(),
        from_address: email_conf.from_address.clone(),
        to_addresses: to,
        subject: subject.to_owned(),
        html_body: email_text,
    })
}

} // verus!
