//! The two collaborators the check depends on — the license authority
//! and the notification service — as capability traits, the shared error
//! they report, the structured warning-log event the check emits, and
//! in-memory implementations of both traits so the check can be
//! exercised with substitutable fakes.

use vstd::prelude::*;
use vstd::string::StringExecFns;

use crate::license::LicenseRecord;

verus! {

/// An error reported by a collaborator. The check never inspects it: it
/// is surfaced verbatim to the caller, and its text is copied into the
/// warning log.
#[derive(Debug, PartialEq, Eq)]
pub struct ServiceError {
    pub message: String,
}

/// Which step of the check a warning-log entry comes from: the
/// machine-distinguishable diagnostic marker of the log.
#[derive(Clone, Copy, Debug, PartialEq, Eq, Structural)]
pub enum LogEventKind {
    LicenseReadFailed,
    NotificationCreateFailed,
}

/// One structured warning-log entry: the diagnostic marker and the text
/// of the underlying error.
#[derive(Debug, PartialEq, Eq)]
pub struct LogEvent {
    pub kind: LogEventKind,
    pub detail: String,
}

/// The class of recipients a notification is addressed to. Expiration
/// warnings go to administrators only.
#[derive(Clone, Copy, Debug, PartialEq, Eq, Structural)]
pub enum NotificationRecipient {
    Admin,
    AllUser,
}

/// The license authority: it owns license storage, validation and
/// expiration computation; the check only reads its answer.
pub trait LicenseAuthority {
    /// What `read` answers in the authority's current state.
    spec fn license(&self) -> Result<LicenseRecord, ServiceError>;

    fn read(&self) -> (r: Result<LicenseRecord, ServiceError>)
        ensures
            r == self.license(),
    ;
}

/// The notification subsystem: it owns delivery and addressing of
/// admin-facing alerts. Every call is recorded in the abstract log of
/// sent notifications, whether or not delivery succeeds.
pub trait NotificationService {
    /// Every notification handed to this service so far, in order:
    /// recipient class and message text.
    spec fn sent(&self) -> Seq<(NotificationRecipient, Seq<char>)>;

    /// Whether the next `create` call succeeds, and with which error it
    /// fails otherwise; chosen by the implementation.
    spec fn next_outcome(&self) -> Result<(), ServiceError>;

    fn create(&mut self, recipient: NotificationRecipient, message: &str) -> (r: Result<
        (),
        ServiceError,
    >)
        ensures
            final(self).sent() == old(self).sent().push((recipient, message@)),
            r == old(self).next_outcome(),
    ;
}

/// A license authority that always answers with one fixed response: a
/// substitutable fake for exercising the check.
pub struct FixedLicenseAuthority {
    pub response: Result<LicenseRecord, ServiceError>,
}

impl LicenseAuthority for FixedLicenseAuthority {
    open spec fn license(&self) -> Result<LicenseRecord, ServiceError> {
        self.response
    }

    fn read(&self) -> (r: Result<LicenseRecord, ServiceError>) {
        match &self.response {
            Ok(record) => Ok(*record),
            Err(e) => Err(ServiceError { message: e.message.clone() }),
        }
    }
}

/// A notification service that keeps every notification it is handed
/// and fails exactly while `fail_with` holds an error text: a
/// substitutable fake for exercising the check.
pub struct RecordingNotificationService {
    pub sent_calls: Vec<(NotificationRecipient, String)>,
    pub fail_with: Option<String>,
}

impl RecordingNotificationService {
    /// A fresh service that has sent nothing and accepts every message.
    pub fn new() -> (r: RecordingNotificationService)
        ensures
            r.sent() == Seq::<(NotificationRecipient, Seq<char>)>::empty(),
            r.next_outcome() == Result::<(), ServiceError>::Ok(()),
    {
        let r = RecordingNotificationService { sent_calls: Vec::new(), fail_with: None };
        proof {
            assert(r.sent() =~= Seq::<(NotificationRecipient, Seq<char>)>::empty());
        }
        r
    }
}

impl NotificationService for RecordingNotificationService {
    open spec fn sent(&self) -> Seq<(NotificationRecipient, Seq<char>)> {
        self.sent_calls@.map_values(|c: (NotificationRecipient, String)| (c.0, c.1@))
    }

    open spec fn next_outcome(&self) -> Result<(), ServiceError> {
        match self.fail_with {
            Some(m) => Err(ServiceError { message: m }),
            None => Ok(()),
        }
    }

    fn create(&mut self, recipient: NotificationRecipient, message: &str) -> (r: Result<
        (),
        ServiceError,
    >) {
        self.sent_calls.push((recipient, message.to_owned()));
        let r = match &self.fail_with {
            Some(m) => Err(ServiceError { message: m.clone() }),
            None => Ok(()),
        };
        proof {
            assert(final(self).sent() =~= old(self).sent().push((recipient, message@)));
        }
        r
    }
}

} // verus!
