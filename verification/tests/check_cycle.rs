use license_check::FixedLicenseAuthority;
use license_check::LicenseCheckJob;
use license_check::LicenseRecord;
use license_check::LicenseType;
use license_check::LogEvent;
use license_check::LogEventKind;
use license_check::NotificationRecipient;
use license_check::RecordingNotificationService;
use license_check::ServiceError;

fn record(license_type: LicenseType, expire_in_days: Option<i64>) -> LicenseRecord {
    LicenseRecord::new(license_type, expire_in_days)
}

fn run_with(
    response: Result<LicenseRecord, ServiceError>,
    fail_with: Option<String>,
) -> (Result<(), ServiceError>, RecordingNotificationService, Vec<LogEvent>) {
    let authority = FixedLicenseAuthority { response };
    let mut notifier = RecordingNotificationService::new();
    notifier.fail_with = fail_with;
    let mut log: Vec<LogEvent> = Vec::new();
    let outcome = LicenseCheckJob::cron(0, &authority, &mut notifier, &mut log);
    (outcome, notifier, log)
}

#[test]
fn community_license_is_never_checked() {
    let (outcome, notifier, log) =
        run_with(Ok(record(LicenseType::Community, Some(2))), None);
    assert_eq!(outcome, Ok(()));
    assert!(notifier.sent_calls.is_empty());
    assert!(log.is_empty());
}

#[test]
fn license_without_expiration_is_not_warned() {
    let (outcome, notifier, log) =
        run_with(Ok(record(LicenseType::Enterprise, None)), None);
    assert_eq!(outcome, Ok(()));
    assert!(notifier.sent_calls.is_empty());
    assert!(log.is_empty());
}

#[test]
fn expiring_license_sends_one_admin_warning() {
    let (outcome, notifier, log) =
        run_with(Ok(record(LicenseType::Enterprise, Some(6))), None);
    assert_eq!(outcome, Ok(()));
    assert_eq!(notifier.sent_calls.len(), 1);
    assert_eq!(notifier.sent_calls[0].0, NotificationRecipient::Admin);
    assert!(notifier.sent_calls[0].1.contains("expire in 6 days"));
    assert!(log.is_empty());
}

#[test]
fn license_expiring_today_is_not_warned() {
    let (outcome, notifier, log) =
        run_with(Ok(record(LicenseType::Enterprise, Some(0))), None);
    assert_eq!(outcome, Ok(()));
    assert!(notifier.sent_calls.is_empty());
    assert!(log.is_empty());
}

#[test]
fn license_expiring_far_ahead_is_not_warned() {
    let (outcome, notifier, log) =
        run_with(Ok(record(LicenseType::Enterprise, Some(10))), None);
    assert_eq!(outcome, Ok(()));
    assert!(notifier.sent_calls.is_empty());
    assert!(log.is_empty());
}

#[test]
fn read_failure_is_returned_verbatim_and_logged() {
    let (outcome, notifier, log) = run_with(
        Err(ServiceError { message: String::from("authority unreachable") }),
        None,
    );
    assert_eq!(
        outcome,
        Err(ServiceError { message: String::from("authority unreachable") })
    );
    assert!(notifier.sent_calls.is_empty());
    assert_eq!(log.len(), 1);
    assert_eq!(log[0].kind, LogEventKind::LicenseReadFailed);
    assert_eq!(log[0].detail, "authority unreachable");
}

#[test]
fn notify_failure_is_returned_verbatim_and_logged() {
    let (outcome, notifier, log) = run_with(
        Ok(record(LicenseType::Enterprise, Some(3))),
        Some(String::from("delivery down")),
    );
    assert_eq!(outcome, Err(ServiceError { message: String::from("delivery down") }));
    assert_eq!(notifier.sent_calls.len(), 1);
    assert_eq!(notifier.sent_calls[0].0, NotificationRecipient::Admin);
    assert!(notifier.sent_calls[0].1.contains("expire in 3 days"));
    assert_eq!(log.len(), 1);
    assert_eq!(log[0].kind, LogEventKind::NotificationCreateFailed);
    assert_eq!(log[0].detail, "delivery down");
}

#[test]
fn warning_window_boundaries() {
    for (days, warned) in [
        (-5i64, false),
        (-1, false),
        (0, false),
        (1, true),
        (2, true),
        (5, true),
        (6, true),
        (7, false),
        (8, false),
        (365, false),
    ] {
        let (outcome, notifier, _log) =
            run_with(Ok(record(LicenseType::Enterprise, Some(days))), None);
        assert_eq!(outcome, Ok(()));
        assert_eq!(notifier.sent_calls.len(), if warned { 1 } else { 0 });
    }
}

#[test]
fn team_tier_is_warned_like_any_paid_tier() {
    let (outcome, notifier, log) =
        run_with(Ok(record(LicenseType::Team, Some(1))), None);
    assert_eq!(outcome, Ok(()));
    assert_eq!(notifier.sent_calls.len(), 1);
    assert!(notifier.sent_calls[0].1.contains("expire in 1 days"));
    assert!(log.is_empty());
}

#[test]
fn community_license_ignores_warning_window_values() {
    for days in [None, Some(0i64), Some(3), Some(6), Some(100)] {
        let (outcome, notifier, log) =
            run_with(Ok(record(LicenseType::Community, days)), None);
        assert_eq!(outcome, Ok(()));
        assert!(notifier.sent_calls.is_empty());
        assert!(log.is_empty());
    }
}

#[test]
fn job_has_its_stable_name() {
    assert_eq!(LicenseCheckJob::name(), "license_check");
}
