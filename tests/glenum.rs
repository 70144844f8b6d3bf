use tofu::glenum;

#[test]
fn pixel_formats_match_the_bindings() {
    assert_eq!(glenum::RED, gl::RED);
    assert_eq!(glenum::RG, gl::RG);
    assert_eq!(glenum::RGB, gl::RGB);
    assert_eq!(glenum::RGBA, gl::RGBA);
    assert_eq!(glenum::RGBA16F, gl::RGBA16F);
    assert_eq!(glenum::DEPTH_STENCIL, gl::DEPTH_STENCIL);
    assert_eq!(glenum::DEPTH24_STENCIL8, gl::DEPTH24_STENCIL8);
}

#[test]
fn data_types_match_the_bindings() {
    assert_eq!(glenum::TRUE, gl::TRUE as u32);
    assert_eq!(glenum::UNSIGNED_BYTE, gl::UNSIGNED_BYTE);
    assert_eq!(glenum::FLOAT, gl::FLOAT);
    assert_eq!(glenum::UNSIGNED_INT_24_8, gl::UNSIGNED_INT_24_8);
}

#[test]
fn texture_and_framebuffer_enums_match_the_bindings() {
    assert_eq!(glenum::TEXTURE_2D, gl::TEXTURE_2D);
    assert_eq!(glenum::TEXTURE0, gl::TEXTURE0);
    assert_eq!(glenum::TEXTURE0 + 31, gl::TEXTURE31);
    assert_eq!(glenum::COLOR_ATTACHMENT0, gl::COLOR_ATTACHMENT0);
    assert_eq!(glenum::COLOR_ATTACHMENT0 + 31, gl::COLOR_ATTACHMENT31);
    assert_eq!(glenum::FRAMEBUFFER_COMPLETE, gl::FRAMEBUFFER_COMPLETE);
}

#[test]
fn debug_enums_match_the_bindings() {
    assert_eq!(glenum::DEBUG_SOURCE_API, gl::DEBUG_SOURCE_API);
    assert_eq!(glenum::DEBUG_SOURCE_WINDOW_SYSTEM, gl::DEBUG_SOURCE_WINDOW_SYSTEM);
    assert_eq!(glenum::DEBUG_SOURCE_SHADER_COMPILER, gl::DEBUG_SOURCE_SHADER_COMPILER);
    assert_eq!(glenum::DEBUG_SOURCE_THIRD_PARTY, gl::DEBUG_SOURCE_THIRD_PARTY);
    assert_eq!(glenum::DEBUG_SOURCE_APPLICATION, gl::DEBUG_SOURCE_APPLICATION);
    assert_eq!(glenum::DEBUG_SOURCE_OTHER, gl::DEBUG_SOURCE_OTHER);
    assert_eq!(glenum::DEBUG_TYPE_ERROR, gl::DEBUG_TYPE_ERROR);
    assert_eq!(glenum::DEBUG_TYPE_DEPRECATED_BEHAVIOR, gl::DEBUG_TYPE_DEPRECATED_BEHAVIOR);
    assert_eq!(glenum::DEBUG_TYPE_UNDEFINED_BEHAVIOR, gl::DEBUG_TYPE_UNDEFINED_BEHAVIOR);
    assert_eq!(glenum::DEBUG_TYPE_PORTABILITY, gl::DEBUG_TYPE_PORTABILITY);
    assert_eq!(glenum::DEBUG_TYPE_PERFORMANCE, gl::DEBUG_TYPE_PERFORMANCE);
    assert_eq!(glenum::DEBUG_TYPE_MARKER, gl::DEBUG_TYPE_MARKER);
    assert_eq!(glenum::DEBUG_TYPE_PUSH_GROUP, gl::DEBUG_TYPE_PUSH_GROUP);
    assert_eq!(glenum::DEBUG_TYPE_POP_GROUP, gl::DEBUG_TYPE_POP_GROUP);
    assert_eq!(glenum::DEBUG_TYPE_OTHER, gl::DEBUG_TYPE_OTHER);
    assert_eq!(glenum::DEBUG_SEVERITY_HIGH, gl::DEBUG_SEVERITY_HIGH);
    assert_eq!(glenum::DEBUG_SEVERITY_MEDIUM, gl::DEBUG_SEVERITY_MEDIUM);
    assert_eq!(glenum::DEBUG_SEVERITY_LOW, gl::DEBUG_SEVERITY_LOW);
    assert_eq!(glenum::DEBUG_SEVERITY_NOTIFICATION, gl::DEBUG_SEVERITY_NOTIFICATION);
}
