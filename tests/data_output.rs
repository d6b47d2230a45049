use waysted::data_output::signed_decimal_text;
use waysted::{AppGroup, AppScreentime, DataOutput, ScreenTimeInstance};

fn total(app: &str, duration: u128, percentage: i32) -> AppScreentime {
    AppScreentime { id: 1, app_name: app.to_string(), duration, percentage }
}

fn instance(title: &str, duration: u128) -> ScreenTimeInstance {
    ScreenTimeInstance {
        id: 1,
        title: title.to_string(),
        app_name: "editor".to_string(),
        duration,
        start_timestamp: 0,
        end_timestamp: duration as i64,
    }
}

#[test]
fn totals_as_text() {
    let data = vec![total("editor", 3_723_004, 75), total("mail", 1000, 25)];
    assert_eq!(data.to_string(), "editor (75%): 1h 2m 3s 4ms\nmail (25%): 1s\n");
    assert_eq!(data.size(), 2);
}

#[test]
fn empty_totals_are_empty_text() {
    let data: Vec<AppScreentime> = vec![];
    assert_eq!(data.to_string(), "");
    assert_eq!(data.size(), 0);
}

#[test]
fn groups_as_text() {
    let data = vec![AppGroup {
        app_name: "editor".to_string(),
        duration: 61_000,
        instances: vec![instance("a.txt", 60_000), instance(" b.txt ", 1000)],
    }];
    assert_eq!(data.to_string(), "editor (1m 1s):\n\t\"a.txt\": 1m\n\t\" b.txt \": 1s\n");
    assert_eq!(data.size(), 1);
}

#[test]
fn signed_numbers() {
    assert_eq!(signed_decimal_text(0), "0");
    assert_eq!(signed_decimal_text(42), "42");
    assert_eq!(signed_decimal_text(-7), "-7");
    assert_eq!(signed_decimal_text(i32::MIN), "-2147483648");
}
