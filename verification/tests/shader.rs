use bitfont::shader::{
    build_step_outcome, shader_type_name, FRAGMENT_SHADER, STATUS_TRUE, VERTEX_SHADER,
};

#[test]
fn names_of_the_two_shader_types() {
    assert_eq!(shader_type_name(VERTEX_SHADER), "VERTEX_SHADER");
    assert_eq!(shader_type_name(FRAGMENT_SHADER), "FRAGMENT_SHADER");
}

#[test]
fn successful_status_keeps_the_handle() {
    let log = [0u8; 8];
    assert_eq!(build_step_outcome(7, STATUS_TRUE, &log, 0), Ok(7));
    // The log is ignored on success, whatever its reported length.
    assert_eq!(build_step_outcome(3, STATUS_TRUE, &log, 5), Ok(3));
}

#[test]
fn failed_status_keeps_the_reported_log_prefix() {
    let log = *b"bad shader\0\0\0\0";
    let r = build_step_outcome(7, 0, &log, 10);
    assert_eq!(r, Err(b"bad shader".to_vec()));
}

#[test]
fn failed_status_with_empty_log() {
    let log = [0u8; 4];
    assert_eq!(build_step_outcome(1, 0, &log, 0), Err(Vec::new()));
}
