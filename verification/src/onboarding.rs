//! Local health state, free of credentials, for the application that looks after the daemon.

use crate::document::{optional_json, Document};
use crate::json::string_json;
use crate::text::signed_text;
use crate::time::{rfc3339, Timestamp};
use vstd::prelude::*;

#[allow(unused_imports)]
use crate::document::{document_text, optional_text};
#[allow(unused_imports)]
use crate::json::{is_one_line, string_text};
#[allow(unused_imports)]
use crate::text::{signed_decimal, text_of};
#[allow(unused_imports)]
use crate::time::rfc3339_text;

verus! {

/// The version of the contract between the daemon and the application.
pub const CONTRACT: &'static str = "northstar-macos-v1";

/// Seconds that the check of the connection may take.
pub const PROBE_TIMEOUT_SECONDS: u64 = 15;

/// What was last found out about the connection and the archive.
#[derive(Debug)]
pub struct Health {
    pub contract: String,
    pub checked_at: String,
    pub connected_at: Option<String>,
    pub capture_checked_at: Option<String>,
    pub account_id: Option<String>,
    pub error: Option<String>,
}

/// Health, as the contracts see it.
pub struct HealthView {
    pub contract: Seq<char>,
    pub checked_at: Seq<char>,
    pub connected_at: Option<Seq<char>>,
    pub capture_checked_at: Option<Seq<char>>,
    pub account_id: Option<Seq<char>>,
    pub error: Option<Seq<char>>,
}

impl View for Health {
    type V = HealthView;

    open spec fn view(&self) -> HealthView {
        HealthView {
            contract: self.contract@,
            checked_at: self.checked_at@,
            connected_at: text_of(self.connected_at),
            capture_checked_at: text_of(self.capture_checked_at),
            account_id: text_of(self.account_id),
            error: text_of(self.error),
        }
    }
}

impl Default for Health {
    fn default() -> (res: Self)
        ensures
            res@ == (HealthView {
                contract: ""@,
                checked_at: ""@,
                connected_at: None,
                capture_checked_at: None,
                account_id: None,
                error: None,
            }),
    {
        Health {
            contract: "".to_string(),
            checked_at: "".to_string(),
            connected_at: None,
            capture_checked_at: None,
            account_id: None,
            error: None,
        }
    }
}

/// The members of the document in which health is reported, in its order.
pub open spec fn health_members(health: HealthView) -> Seq<(Seq<char>, Seq<char>)> {
    seq![
        ("contract"@, string_text(health.contract)),
        ("checkedAt"@, string_text(health.checked_at)),
        ("connectedAt"@, optional_text(health.connected_at)),
        ("captureCheckedAt"@, optional_text(health.capture_checked_at)),
        ("accountId"@, optional_text(health.account_id)),
        ("error"@, optional_text(health.error)),
    ]
}

/// The text in which health is reported.
pub fn health_json(health: &Health) -> (res: String)
    ensures
        res@ == document_text(health_members(health@)),
        is_one_line(res@),
{
    let mut document = Document::new();
    document.put("contract", string_json(health.contract.as_str()).as_str());
    document.put("checkedAt", string_json(health.checked_at.as_str()).as_str());
    document.put("connectedAt", optional_json(&health.connected_at).as_str());
    document.put("captureCheckedAt", optional_json(&health.capture_checked_at).as_str());
    document.put("accountId", optional_json(&health.account_id).as_str());
    document.put("error", optional_json(&health.error).as_str());
    assert(document.members() =~= health_members(health@));
    document.finish()
}

/// Health after a probe. `account` is the account that answered, if one did in time, and
/// `archive_ok` tells that the archive could be read. What was found out before stays where the
/// probe found out nothing new, and a failure of the archive is told before one of the
/// connection.
pub open spec fn after_probe(
    before: HealthView,
    checked_at: Seq<char>,
    account: Option<i64>,
    archive_ok: bool,
) -> HealthView {
    HealthView {
        contract: CONTRACT@,
        checked_at,
        connected_at: if account is Some {
            Some(checked_at)
        } else {
            before.connected_at
        },
        capture_checked_at: if archive_ok {
            Some(checked_at)
        } else {
            before.capture_checked_at
        },
        account_id: match account {
            Some(id) => Some(signed_decimal(id as int)),
            None => before.account_id,
        },
        error: if !archive_ok {
            Some("Local archive needs attention"@)
        } else if account is None {
            Some("Telegram connection needs attention"@)
        } else {
            None
        },
    }
}

/// Takes down what a probe found out at the given time, written as text.
pub fn record_probe(health: &mut Health, checked_at: String, account: Option<i64>, archive_ok: bool)
    ensures
        final(health)@ == after_probe(old(health)@, checked_at@, account, archive_ok),
{
    health.contract = CONTRACT.to_string();
    match account {
        Some(id) => {
            health.connected_at = Some(checked_at.clone());
            health.account_id = Some(signed_text(id));
            health.error = None;
        },
        None => {
            health.error = Some("Telegram connection needs attention".to_string());
        },
    }
    if archive_ok {
        health.capture_checked_at = Some(checked_at.clone());
    } else {
        health.error = Some("Local archive needs attention".to_string());
    }
    health.checked_at = checked_at;
}

/// Takes down what a probe found out now, and returns the report that is to be written.
pub fn probe(health: &mut Health, now: Timestamp, account: Option<i64>, archive_ok: bool) -> (res:
    String)
    requires
        now.valid(),
    ensures
        final(health)@ == after_probe(
            old(health)@,
            rfc3339_text(now.seconds, now.nanos),
            account,
            archive_ok,
        ),
        res@ == document_text(health_members(final(health)@)),
        is_one_line(res@),
{
    record_probe(health, rfc3339(now), account, archive_ok);
    health_json(health)
}

/// Health tells no error exactly when both the connection and the archive answered, and a
/// failure never forgets when they last did.
pub proof fn health_tells_what_failed(
    before: HealthView,
    checked_at: Seq<char>,
    account: Option<i64>,
    archive_ok: bool,
)
    ensures
        after_probe(before, checked_at, account, archive_ok).error is None <==> account is Some
            && archive_ok,
        account is None ==> after_probe(before, checked_at, account, archive_ok).connected_at
            == before.connected_at && after_probe(
            before,
            checked_at,
            account,
            archive_ok,
        ).account_id == before.account_id,
        !archive_ok ==> after_probe(before, checked_at, account, archive_ok).capture_checked_at
            == before.capture_checked_at,
{
}

/// The names under which health is reported.
pub open spec fn health_names() -> Seq<Seq<char>> {
    seq![
        "contract"@,
        "checkedAt"@,
        "connectedAt"@,
        "captureCheckedAt"@,
        "accountId"@,
        "error"@,
    ]
}

/// A report holds six members and no others, whatever the health: no credentials, and nothing of
/// any message.
pub proof fn a_report_holds_six_members(health: HealthView)
    ensures
        health_members(health).map_values(|member: (Seq<char>, Seq<char>)| member.0)
            == health_names(),
{
    assert(health_members(health).map_values(|member: (Seq<char>, Seq<char>)| member.0)
        =~= health_names());
}

/// A probe tells of both checks apart: the time of the last connection and the account move
/// exactly when an account answered, the time of the last look at the archive exactly when it
/// could be read, and each moves to the time of the probe itself.
pub proof fn a_probe_tells_of_both_checks(
    before: HealthView,
    checked_at: Seq<char>,
    account: Option<i64>,
    archive_ok: bool,
)
    ensures
        ({
            let after = after_probe(before, checked_at, account, archive_ok);
            &&& after.contract == "northstar-macos-v1"@
            &&& after.checked_at == checked_at
            &&& account matches Some(id) ==> {
                &&& after.connected_at == Some(checked_at)
                &&& after.account_id == Some(signed_decimal(id as int))
            }
            &&& account is None ==> after.connected_at == before.connected_at && after.account_id
                == before.account_id
            &&& archive_ok ==> after.capture_checked_at == Some(checked_at)
            &&& !archive_ok ==> after.capture_checked_at == before.capture_checked_at
            &&& after.error == Some("Local archive needs attention"@) <==> !archive_ok
            &&& after.error == Some("Telegram connection needs attention"@) <==> archive_ok
                && account is None
            &&& after.error is None <==> archive_ok && account is Some
        }),
{
    reveal_strlit("Local archive needs attention");
    reveal_strlit("Telegram connection needs attention");
    assert("Local archive needs attention"@[0] == 'L');
    assert("Telegram connection needs attention"@[0] == 'T');
}

/// A report holds the values of the health, each under its own name.
pub proof fn a_report_holds_the_health(health: HealthView)
    ensures
        ({
            let members = health_members(health);
            &&& members[0] == ("contract"@, string_text(health.contract))
            &&& members[1] == ("checkedAt"@, string_text(health.checked_at))
            &&& members[2].0 == "connectedAt"@ && members[3].0 == "captureCheckedAt"@
                && members[4].0 == "accountId"@ && members[5].0 == "error"@
            &&& health.connected_at matches Some(text) ==> members[2].1 == string_text(text)
            &&& health.connected_at is None ==> members[2].1 == "null"@
            &&& health.capture_checked_at matches Some(text) ==> members[3].1 == string_text(text)
            &&& health.capture_checked_at is None ==> members[3].1 == "null"@
            &&& health.account_id matches Some(text) ==> members[4].1 == string_text(text)
            &&& health.account_id is None ==> members[4].1 == "null"@
            &&& health.error matches Some(text) ==> members[5].1 == string_text(text)
            &&& health.error is None ==> members[5].1 == "null"@
            &&& members.len() == 6
        }),
{
}

} // verus!
