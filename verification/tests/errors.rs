use ash::vk;
use render::error::{check, format_message, Error, SUCCESS};

#[test]
fn success_is_zero() {
    assert_eq!(SUCCESS, 0);
    assert_eq!(SUCCESS, vk::Result::SUCCESS.as_raw());
}

#[test]
fn error_keeps_its_code() {
    assert_eq!(Error::new(-4).code(), -4);
    assert_eq!(Error::from(-3), Error::new(-3));
    assert_ne!(Error::new(-3), Error::new(-4));
}

#[test]
fn message_formats_description_and_code() {
    assert_eq!(format_message("Lost", -4), "Lost. (-4)");
    assert_eq!(format_message("Fine", 0), "Fine. (0)");
    assert_eq!(format_message("", 7), ". (7)");
    assert_eq!(format_message("Many", 1000299000), "Many. (1000299000)");
}

#[test]
fn message_formats_the_extremes() {
    assert_eq!(format_message("x", i32::MAX), "x. (2147483647)");
    assert_eq!(format_message("x", i32::MIN), "x. (-2147483648)");
    assert_eq!(format_message("x", -10), "x. (-10)");
    assert_eq!(format_message("x", 10), "x. (10)");
    assert_eq!(format_message("x", 109), "x. (109)");
}

#[test]
fn message_of_a_known_code() {
    let code = vk::Result::ERROR_OUT_OF_HOST_MEMORY.as_raw();
    assert_eq!(Error::new(code).message(), "A host memory allocation has failed. (-1)");
}

#[test]
fn message_follows_the_binding_crate() {
    for result in [
        vk::Result::SUCCESS,
        vk::Result::NOT_READY,
        vk::Result::ERROR_INITIALIZATION_FAILED,
        vk::Result::ERROR_EXTENSION_NOT_PRESENT,
        vk::Result::ERROR_SURFACE_LOST_KHR,
        vk::Result::from_raw(12345),
    ] {
        let raw = result.as_raw();
        assert_eq!(Error::new(raw).message(), format!("{}. ({})", result, raw));
    }
}

#[test]
fn check_passes_the_value_on_success() {
    assert_eq!(check(0, 17u64), Ok(17u64));
}

#[test]
fn check_gives_the_code_on_failure() {
    assert_eq!(check(-7, 17u64), Err(Error::new(-7)));
    assert_eq!(check(5, true), Err(Error::new(5)));
}
