use struct_merge::classify::{ClassifiedType, InvalidReason};
use struct_merge::rules::{decide, MergeAction, MergeDecision, MergeMode};

fn plain(text: &str) -> ClassifiedType {
    ClassifiedType::Plain { text: text.to_string() }
}

fn wrapped(inner: &str) -> ClassifiedType {
    ClassifiedType::Wrapped { inner: inner.to_string(), outer: format!("Option<{}>", inner) }
}

#[test]
fn plain_into_plain_strict_copies() {
    let d = decide(&plain("String"), &plain("String"), MergeMode::Strict);
    assert_eq!(d, MergeDecision::Act { action: MergeAction::CopyAlways });
}

#[test]
fn plain_into_plain_soft_skips_without_checking() {
    // Two plain fields have no absence state, so soft mode skips the pair
    // even when the types differ.
    let d = decide(&plain("i32"), &plain("String"), MergeMode::Soft);
    assert_eq!(d, MergeDecision::Skip);
}

#[test]
fn plain_into_plain_mismatch_is_reported() {
    let d = decide(&plain("i32"), &plain("String"), MergeMode::Strict);
    assert_eq!(
        d,
        MergeDecision::Mismatch {
            source_type: "i32".to_string(),
            target_type: "String".to_string(),
        }
    );
}

#[test]
fn wrapped_into_plain_strict_gates_on_source() {
    let d = decide(&wrapped("String"), &plain("String"), MergeMode::Strict);
    assert_eq!(d, MergeDecision::Act { action: MergeAction::CopyIfSourcePresent });
}

#[test]
fn wrapped_into_plain_soft_skips() {
    let d = decide(&wrapped("String"), &plain("String"), MergeMode::Soft);
    assert_eq!(d, MergeDecision::Skip);
}

#[test]
fn wrapped_into_plain_mismatch_names_inner_type() {
    let d = decide(&wrapped("i32"), &plain("String"), MergeMode::Strict);
    assert_eq!(
        d,
        MergeDecision::Mismatch {
            source_type: "i32".to_string(),
            target_type: "String".to_string(),
        }
    );
}

#[test]
fn plain_into_wrapped_strict_wraps() {
    let d = decide(&plain("String"), &wrapped("String"), MergeMode::Strict);
    assert_eq!(d, MergeDecision::Act { action: MergeAction::WrapAlways });
}

#[test]
fn plain_into_wrapped_soft_fills_if_absent() {
    let d = decide(&plain("String"), &wrapped("String"), MergeMode::Soft);
    assert_eq!(d, MergeDecision::Act { action: MergeAction::WrapIfTargetAbsent });
}

#[test]
fn same_depth_wrappers_strict_copies() {
    let d = decide(&wrapped("String"), &wrapped("String"), MergeMode::Strict);
    assert_eq!(d, MergeDecision::Act { action: MergeAction::CopyAlways });
}

#[test]
fn same_depth_wrappers_soft_fills_if_absent() {
    let d = decide(&wrapped("String"), &wrapped("String"), MergeMode::Soft);
    assert_eq!(d, MergeDecision::Act { action: MergeAction::CopyIfTargetAbsent });
}

#[test]
fn deeper_source_unwraps_once() {
    let d = decide(&wrapped("Option<String>"), &wrapped("String"), MergeMode::Strict);
    assert_eq!(d, MergeDecision::Act { action: MergeAction::CopyIfSourcePresent });
    let d = decide(&wrapped("Option<String>"), &wrapped("String"), MergeMode::Soft);
    assert_eq!(d, MergeDecision::Act { action: MergeAction::CopyIfSourcePresentAndTargetAbsent });
}

#[test]
fn deeper_target_wraps_whole_source() {
    let d = decide(&wrapped("String"), &wrapped("Option<String>"), MergeMode::Strict);
    assert_eq!(d, MergeDecision::Act { action: MergeAction::WrapAlways });
    let d = decide(&wrapped("String"), &wrapped("Option<String>"), MergeMode::Soft);
    assert_eq!(d, MergeDecision::Act { action: MergeAction::WrapIfTargetAbsent });
}

#[test]
fn same_depth_match_wins_over_depth_shift() {
    // A contrived pair where the inner texts agree and the source's inner
    // also equals the target's outer: the same-depth reading must win.
    let source = ClassifiedType::Wrapped { inner: "X".to_string(), outer: "X".to_string() };
    let target = ClassifiedType::Wrapped { inner: "X".to_string(), outer: "X".to_string() };
    let d = decide(&source, &target, MergeMode::Strict);
    assert_eq!(d, MergeDecision::Act { action: MergeAction::CopyAlways });
}

#[test]
fn incompatible_wrappers_mismatch_names_outer_and_inner() {
    let d = decide(&wrapped("i32"), &wrapped("String"), MergeMode::Strict);
    assert_eq!(
        d,
        MergeDecision::Mismatch {
            source_type: "Option<i32>".to_string(),
            target_type: "String".to_string(),
        }
    );
}

#[test]
fn invalid_side_skips_silently() {
    let invalid = ClassifiedType::Invalid { reason: InvalidReason::NotAPath };
    assert_eq!(decide(&invalid, &plain("u32"), MergeMode::Strict), MergeDecision::Skip);
    assert_eq!(decide(&plain("u32"), &invalid, MergeMode::Strict), MergeDecision::Skip);
    assert_eq!(decide(&invalid, &invalid, MergeMode::Soft), MergeDecision::Skip);
}
