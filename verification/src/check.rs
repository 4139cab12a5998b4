//! One license-expiration check cycle: read the license record, decide
//! whether a warning is due, send at most one notification, and report
//! every collaborator failure verbatim.

use vstd::prelude::*;

use crate::license::needs_warning;
use crate::license::warning_days;
use crate::license::LicenseRecord;
use crate::license::LicenseType;
use crate::message::contains_substring;
use crate::message::dec_int;
use crate::message::expiring_message;
use crate::message::lemma_message_names_days;
use crate::message::make_expring_message;
use crate::service::LicenseAuthority;
use crate::service::LogEvent;
use crate::service::LogEventKind;
use crate::service::NotificationRecipient;
use crate::service::NotificationService;
use crate::service::ServiceError;

verus! {

/// What one answer from the license authority asks the check to do
/// next: stop with the authority's failure (logging it), finish
/// successfully with nothing to send, or send one warning.
pub enum CheckStep {
    Abort { error: ServiceError, log: LogEvent },
    Done,
    Notify { recipient: NotificationRecipient, message: String },
}

/// Decides the whole check from the license authority's answer: a
/// failure is surfaced as-is together with its log entry; a Community
/// license, a license with no expiration, and one expiring outside the
/// warning window all finish with nothing to send; only a paid license
/// expiring in more than zero and fewer than seven days asks for one
/// admin notification, with the templated message.
pub fn classify_license(read_result: Result<LicenseRecord, ServiceError>) -> (step: CheckStep)
    ensures
        match read_result {
            Err(e) => step == (CheckStep::Abort {
                error: e,
                log: LogEvent { kind: LogEventKind::LicenseReadFailed, detail: e.message },
            }),
            Ok(license) => {
                if needs_warning(license) {
                    step matches CheckStep::Notify { recipient, message }
                        && recipient == NotificationRecipient::Admin && message@
                        == expiring_message(warning_days(license))
                } else {
                    step == CheckStep::Done
                }
            },
        },
{
    let license = match read_result {
        Ok(license) => license,
        Err(err) => {
            let detail = err.message.clone();
            return CheckStep::Abort {
                error: err,
                log: LogEvent { kind: LogEventKind::LicenseReadFailed, detail },
            };
        },
    };
    if license.license_type == LicenseType::Community {
        return CheckStep::Done;
    }
    if let Some(expire_in_days) = license.expire_in_days() {
        if expire_in_days < 7 && expire_in_days > 0 {
            return CheckStep::Notify {
                recipient: NotificationRecipient::Admin,
                message: make_expring_message(expire_in_days),
            };
        }
    }
    CheckStep::Done
}

/// Decides the check's outcome from the notification service's answer:
/// success passes through, and a delivery failure is surfaced as-is
/// together with its log entry.
pub fn conclude_notification(create_result: Result<(), ServiceError>) -> (r: (
    Result<(), ServiceError>,
    Option<LogEvent>,
))
    ensures
        match create_result {
            Ok(_) => r == (Result::<(), ServiceError>::Ok(()), Option::<LogEvent>::None),
            Err(e) => r == (
                Result::<(), ServiceError>::Err(e),
                Some(LogEvent { kind: LogEventKind::NotificationCreateFailed, detail: e.message }),
            ),
        },
{
    match create_result {
        Ok(()) => (Ok(()), None),
        Err(err) => {
            let detail = err.message.clone();
            (
                Err(err),
                Some(LogEvent { kind: LogEventKind::NotificationCreateFailed, detail }),
            )
        },
    }
}

/// Whenever a license triggers a warning, the message the check sends —
/// `expiring_message(warning_days(license))`, by the contract of `cron`
/// — names the day count: it contains the substring
/// `expire in {d} days` for the license's own `d`.
pub proof fn lemma_sent_message_names_days(license: LicenseRecord)
    requires
        needs_warning(license),
    ensures
        contains_substring(
            expiring_message(warning_days(license)),
            "expire in "@ + dec_int(warning_days(license)) + " days"@,
        ),
{
    lemma_message_names_days(warning_days(license));
}

/// The recurring check itself; a scheduler invokes `cron` once per
/// cycle.
pub struct LicenseCheckJob;

impl LicenseCheckJob {
    /// The stable logical name the job is registered under.
    pub fn name() -> (r: &'static str)
        ensures
            r@ == "license_check"@,
    {
        "license_check"
    }

    /// Runs one check cycle. `_now` is the caller-supplied current
    /// timestamp, in seconds; the classification does not depend on its
    /// value. The contract pins the whole cycle down, for every answer
    /// the collaborators may give:
    ///
    /// - a read failure is returned verbatim, logged, and nothing is
    ///   sent;
    /// - a license that needs no warning (Community tier, no
    ///   expiration, or an expiration outside the window) finishes
    ///   successfully with nothing sent and nothing logged;
    /// - a license that needs a warning sends exactly one notification,
    ///   to administrators, with the templated message for its day
    ///   count; a delivery failure is then returned verbatim and
    ///   logged, and delivery success finishes the cycle successfully.
    pub fn cron<L: LicenseAuthority, N: NotificationService>(
        _now: i64,
        license_authority: &L,
        notification_service: &mut N,
        log: &mut Vec<LogEvent>,
    ) -> (r: Result<(), ServiceError>)
        ensures
            match license_authority.license() {
                Err(e) => {
                    &&& r == Result::<(), ServiceError>::Err(e)
                    &&& final(notification_service).sent() == old(notification_service).sent()
                    &&& final(log)@ == old(log)@.push(
                        LogEvent { kind: LogEventKind::LicenseReadFailed, detail: e.message },
                    )
                },
                Ok(license) => {
                    if needs_warning(license) {
                        &&& final(notification_service).sent() == old(
                            notification_service,
                        ).sent().push(
                            (
                                NotificationRecipient::Admin,
                                expiring_message(warning_days(license)),
                            ),
                        )
                        &&& match old(notification_service).next_outcome() {
                            Ok(_) => r == Result::<(), ServiceError>::Ok(()) && final(log)@ == old(
                                log,
                            )@,
                            Err(e) => r == Result::<(), ServiceError>::Err(e) && final(log)@ == old(
                                log,
                            )@.push(
                                LogEvent {
                                    kind: LogEventKind::NotificationCreateFailed,
                                    detail: e.message,
                                },
                            ),
                        }
                    } else {
                        &&& r == Result::<(), ServiceError>::Ok(())
                        &&& final(notification_service).sent() == old(notification_service).sent()
                        &&& final(log)@ == old(log)@
                    }
                },
            },
    {
        match classify_license(license_authority.read()) {
            CheckStep::Abort { error, log: event } => {
                log.push(event);
                Err(error)
            },
            CheckStep::Done => Ok(()),
            CheckStep::Notify { recipient, message } => {
                let created = notification_service.create(recipient, message.as_str());
                let (outcome, event) = conclude_notification(created);
                if let Some(event) = event {
                    log.push(event);
                }
                outcome
            },
        }
    }
}

} // verus!
