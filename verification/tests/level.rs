use mdlog::LogLevel;

#[test]
fn ranks_are_exactly_zero_through_four() {
    assert_eq!(LogLevel::Debug.numeric_level(), 0);
    assert_eq!(LogLevel::Info.numeric_level(), 1);
    assert_eq!(LogLevel::Warning.numeric_level(), 2);
    assert_eq!(LogLevel::Error.numeric_level(), 3);
    assert_eq!(LogLevel::Fatal.numeric_level(), 4);
}

#[test]
fn order_agrees_with_rank_for_all_pairs() {
    let levels = [
        LogLevel::Debug,
        LogLevel::Info,
        LogLevel::Warning,
        LogLevel::Error,
        LogLevel::Fatal,
    ];
    for a in levels {
        for b in levels {
            assert_eq!(a < b, a.numeric_level() < b.numeric_level());
            assert_eq!(a == b, a.numeric_level() == b.numeric_level());
            assert_eq!(a > b, a.numeric_level() > b.numeric_level());
        }
    }
}

#[test]
fn labels_are_fixed_uppercase() {
    assert_eq!(LogLevel::Debug.label(), "DEBUG");
    assert_eq!(LogLevel::Info.label(), "INFO");
    assert_eq!(LogLevel::Warning.label(), "WARN");
    assert_eq!(LogLevel::Error.label(), "ERROR");
    assert_eq!(LogLevel::Fatal.label(), "FATAL");
}
