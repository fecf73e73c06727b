use workwatch::notify::clock_in_body;
use workwatch::notify::clock_in_title;
use workwatch::notify::clock_out_body;
use workwatch::notify::clock_out_title;
use workwatch::notify::join_logs;

#[test]
fn titles_name_the_user() {
    assert_eq!(clock_in_title("alice"), "alice has clocked in!");
    assert_eq!(clock_out_title("alice"), "alice has clocked out!");
}

#[test]
fn join_empty_and_single() {
    assert_eq!(join_logs(&Vec::new()), "");
    assert_eq!(join_logs(&vec!["only".to_string()]), "only");
}

#[test]
fn join_several_with_newlines() {
    let logs = vec!["a".to_string(), "b".to_string(), "c".to_string()];
    assert_eq!(join_logs(&logs), "a\nb\nc");
}

#[test]
fn clock_in_body_holds_date_and_time() {
    assert_eq!(
        clock_in_body("10/09/2026", "12:00:00 (UTC+0000)"),
        "\nDate: 10/09/2026\nTime: 12:00:00 (UTC+0000)"
    );
}

#[test]
fn clock_out_body_without_logs_uses_placeholder() {
    let body = clock_out_body("10/09/2026", "12:00:00 (UTC+0000)", "5 Seconds", &Vec::new());
    assert_eq!(
        body,
        "\nDate: 10/09/2026\nTime: 12:00:00 (UTC+0000)\n\nTotal Logged Time: 5 Seconds\n\nNo logs to display."
    );
}

#[test]
fn clock_out_body_dumps_the_logs() {
    let logs = vec!["wrote tests".to_string(), "fixed a bug".to_string()];
    let body = clock_out_body("10/09/2026", "12:00:00 (UTC+0000)", "2 Minutes, 5 Seconds", &logs);
    assert_eq!(
        body,
        "\nDate: 10/09/2026\nTime: 12:00:00 (UTC+0000)\n\nTotal Logged Time: 2 Minutes, 5 Seconds\n\nLogs:\nwrote tests\nfixed a bug"
    );
}
