use libmq::error::{dotted_path, AnyError};

#[test]
fn type_paths_are_joined_by_dots() {
    assert_eq!(dotted_path("core::num::ParseIntError"), "core.num.ParseIntError");
    assert_eq!(dotted_path("std::io::Error"), "std.io.Error");
    assert_eq!(dotted_path("Plain"), "Plain");
    assert_eq!(dotted_path(""), "");
}

#[test]
fn single_colons_stay() {
    assert_eq!(dotted_path("a:b"), "a:b");
    assert_eq!(dotted_path(":"), ":");
    assert_eq!(dotted_path("a:"), "a:");
}

#[test]
fn colons_are_paired_from_the_left() {
    assert_eq!(dotted_path("::"), ".");
    assert_eq!(dotted_path(":::"), ".:");
    assert_eq!(dotted_path("::::"), "..");
    assert_eq!(dotted_path("a:::b"), "a.:b");
}

#[test]
fn dotted_path_agrees_with_std_replace() {
    let samples = [
        "&dyn core::error::Error",
        "alloc::vec::Vec<alloc::string::String>",
        "x::y:z::::w:",
        "módulo::tipo",
    ];
    for sample in samples {
        assert_eq!(dotted_path(sample), sample.replace("::", "."));
    }
}

#[test]
fn lifting_records_type_message_and_cause() {
    let cause = AnyError::new("std::io::Error", "disk full".to_string(), None);
    let error = AnyError::new("app::SaveError", "could not save".to_string(), Some(cause.clone()));
    assert_eq!(error.error_type, "app.SaveError");
    assert_eq!(error.context.message, "could not save");
    assert_eq!(error.context.inner_error, Some(Box::new(cause)));
}

#[test]
fn a_failure_without_cause_has_none() {
    let error = AnyError::new("T", "m".to_string(), None);
    assert_eq!(error.context.inner_error, None);
}

#[test]
fn text_is_the_message_without_the_causes() {
    let cause = AnyError::new("std::io::Error", "disk full".to_string(), None);
    let error = AnyError::new("app::SaveError", "could not save".to_string(), Some(cause));
    assert_eq!(error.to_string(), "could not save");
}

#[test]
fn copies_carry_the_whole_chain() {
    let root = AnyError::new("a::Root", "root".to_string(), None);
    let middle = AnyError::new("a::Middle", "middle".to_string(), Some(root));
    let top = AnyError::new("a::Top", "top".to_string(), Some(middle));
    assert_eq!(top.duplicate(), top);
    assert_eq!(top.clone(), top);
    let inner = top.clone().context.inner_error.unwrap();
    assert_eq!(inner.context.inner_error.unwrap().context.message, "root");
}
