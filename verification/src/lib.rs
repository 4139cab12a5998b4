//! A verified license-expiration check.
//!
//! One check cycle reads the current license record from a license
//! authority, decides whether the license is close enough to expiring to
//! warrant a warning, and, when it is, asks a notification service to
//! alert administrators with a templated message.

pub mod check;
pub mod license;
pub mod message;
pub mod service;

pub use check::classify_license;
pub use check::conclude_notification;
pub use check::CheckStep;
pub use check::LicenseCheckJob;
pub use license::LicenseRecord;
pub use license::LicenseType;
pub use message::make_expring_message;
pub use service::FixedLicenseAuthority;
pub use service::LicenseAuthority;
pub use service::LogEvent;
pub use service::LogEventKind;
pub use service::NotificationRecipient;
pub use service::NotificationService;
pub use service::RecordingNotificationService;
pub use service::ServiceError;
