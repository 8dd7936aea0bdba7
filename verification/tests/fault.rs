use kernel_roulette::fault::{decimal_string, fault_report_text, init_report_text};

#[test]
fn decimal_renders_exactly() {
    assert_eq!(decimal_string(0), "0");
    assert_eq!(decimal_string(7), "7");
    assert_eq!(decimal_string(10), "10");
    assert_eq!(decimal_string(42), "42");
    assert_eq!(decimal_string(100), "100");
    assert_eq!(decimal_string(4294967295), "4294967295");
}

#[test]
fn fault_report_formats_location_and_message() {
    assert_eq!(
        fault_report_text("src/roulette.rs", 35, "Boom!"),
        "Rust panic @ src/roulette.rs:35\nBoom!\n"
    );
}

#[test]
fn fault_report_keeps_an_empty_message_line() {
    assert_eq!(fault_report_text("a.rs", 1, ""), "Rust panic @ a.rs:1\n\n");
}

#[test]
fn init_report_names_chance_and_bound() {
    assert_eq!(init_report_text(37), "Panic probability: 37/100\n");
    assert_eq!(init_report_text(0), "Panic probability: 0/100\n");
    assert_eq!(init_report_text(100), "Panic probability: 100/100\n");
}
