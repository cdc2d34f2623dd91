use rsutil::log::severity::{admits, Severity};

const LEVELS: [Severity; 5] =
    [Severity::Trace, Severity::Debug, Severity::Info, Severity::Warn, Severity::Error];

#[test]
fn ordinals_follow_the_order() {
    assert_eq!(Severity::Trace.ordinal(), 0);
    assert_eq!(Severity::Debug.ordinal(), 1);
    assert_eq!(Severity::Info.ordinal(), 2);
    assert_eq!(Severity::Warn.ordinal(), 3);
    assert_eq!(Severity::Error.ordinal(), 4);
}

#[test]
fn threshold_admits_its_level_and_above() {
    for (i, low) in LEVELS.iter().enumerate() {
        for (j, high) in LEVELS.iter().enumerate() {
            assert_eq!(admits(*low, *high), i >= j);
        }
    }
}

#[test]
fn lower_level_is_suppressed_higher_is_admitted() {
    assert!(!admits(Severity::Info, Severity::Warn));
    assert!(admits(Severity::Warn, Severity::Warn));
    assert!(!admits(Severity::Trace, Severity::Error));
    assert!(admits(Severity::Error, Severity::Error));
    assert!(admits(Severity::Error, Severity::Trace));
}

#[test]
fn equal_levels_admit() {
    assert!(admits(Severity::Info, Severity::Info));
    assert!(admits(Severity::Trace, Severity::Trace));
}

#[test]
fn operators_agree_with_admission() {
    for low in LEVELS.iter() {
        for high in LEVELS.iter() {
            assert_eq!(admits(*low, *high), low >= high);
            assert_eq!(low.ordinal() < high.ordinal(), low < high);
        }
    }
    assert!(Severity::Trace < Severity::Debug);
    assert!(Severity::Debug < Severity::Info);
    assert!(Severity::Info < Severity::Warn);
    assert!(Severity::Warn < Severity::Error);
}
