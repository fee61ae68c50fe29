use render_core::error::{error_callback, match_error, GLError};
use render_core::glenum;
use render_core::text::decimal_string;

#[test]
fn every_error_code_has_its_variant() {
    assert_eq!(match_error(0x0500), Some(GLError::InvalidEnum));
    assert_eq!(match_error(0x0501), Some(GLError::InvalidValue));
    assert_eq!(match_error(0x0502), Some(GLError::InvalidOperation));
    assert_eq!(match_error(0x0503), Some(GLError::StackOverflow));
    assert_eq!(match_error(0x0504), Some(GLError::StackUnderflow));
    assert_eq!(match_error(0x0505), Some(GLError::OutOfMemory));
    assert_eq!(match_error(0x0506), Some(GLError::InvalidFramebufferOperation));
    assert_eq!(match_error(0x0507), Some(GLError::ContextLost));
}

#[test]
fn other_codes_are_no_error() {
    assert_eq!(match_error(0), None);
    assert_eq!(match_error(0x04FF), None);
    assert_eq!(match_error(0x0508), None);
    assert_eq!(match_error(u32::MAX), None);
}

#[test]
fn error_codes_are_those_of_the_bindings() {
    assert_eq!(match_error(gl::NO_ERROR), None);
    assert_eq!(match_error(gl::INVALID_ENUM), Some(GLError::InvalidEnum));
    assert_eq!(match_error(gl::INVALID_VALUE), Some(GLError::InvalidValue));
    assert_eq!(match_error(gl::INVALID_OPERATION), Some(GLError::InvalidOperation));
    assert_eq!(match_error(gl::STACK_OVERFLOW), Some(GLError::StackOverflow));
    assert_eq!(match_error(gl::STACK_UNDERFLOW), Some(GLError::StackUnderflow));
    assert_eq!(match_error(gl::OUT_OF_MEMORY), Some(GLError::OutOfMemory));
    assert_eq!(
        match_error(gl::INVALID_FRAMEBUFFER_OPERATION),
        Some(GLError::InvalidFramebufferOperation)
    );
    assert_eq!(match_error(gl::CONTEXT_LOST), Some(GLError::ContextLost));
}

#[test]
fn enumerants_are_those_of_the_bindings() {
    assert_eq!(glenum::TRUE, gl::TRUE as i32);
    assert_eq!(glenum::FALSE, gl::FALSE as i32);
    assert_eq!(glenum::TRIANGLES, gl::TRIANGLES);
    assert_eq!(glenum::DEPTH_BUFFER_BIT, gl::DEPTH_BUFFER_BIT);
    assert_eq!(glenum::COLOR_BUFFER_BIT, gl::COLOR_BUFFER_BIT);
    assert_eq!(glenum::UNSIGNED_BYTE, gl::UNSIGNED_BYTE);
    assert_eq!(glenum::UNSIGNED_INT, gl::UNSIGNED_INT);
    assert_eq!(glenum::FLOAT, gl::FLOAT);
    assert_eq!(glenum::RED, gl::RED);
    assert_eq!(glenum::RG, gl::RG);
    assert_eq!(glenum::RGB, gl::RGB);
    assert_eq!(glenum::RGBA, gl::RGBA);
    assert_eq!(glenum::TEXTURE0, gl::TEXTURE0);
    assert_eq!(glenum::FRAMEBUFFER_COMPLETE, gl::FRAMEBUFFER_COMPLETE);
    assert_eq!(glenum::COLOR_ATTACHMENT0, gl::COLOR_ATTACHMENT0);
    assert_eq!(glenum::DEPTH_ATTACHMENT, gl::DEPTH_ATTACHMENT);
    assert_eq!(glenum::DEBUG_SOURCE_API, gl::DEBUG_SOURCE_API);
    assert_eq!(glenum::DEBUG_SOURCE_WINDOW_SYSTEM, gl::DEBUG_SOURCE_WINDOW_SYSTEM);
    assert_eq!(glenum::DEBUG_SOURCE_SHADER_COMPILER, gl::DEBUG_SOURCE_SHADER_COMPILER);
    assert_eq!(glenum::DEBUG_SOURCE_THIRD_PARTY, gl::DEBUG_SOURCE_THIRD_PARTY);
    assert_eq!(glenum::DEBUG_SOURCE_APPLICATION, gl::DEBUG_SOURCE_APPLICATION);
    assert_eq!(glenum::DEBUG_SOURCE_OTHER, gl::DEBUG_SOURCE_OTHER);
    assert_eq!(glenum::DEBUG_TYPE_ERROR, gl::DEBUG_TYPE_ERROR);
    assert_eq!(glenum::DEBUG_TYPE_DEPRECATED_BEHAVIOR, gl::DEBUG_TYPE_DEPRECATED_BEHAVIOR);
    assert_eq!(glenum::DEBUG_TYPE_UNDEFINED_BEHAVIOR, gl::DEBUG_TYPE_UNDEFINED_BEHAVIOR);
    assert_eq!(glenum::DEBUG_TYPE_PORTABILITY, gl::DEBUG_TYPE_PORTABILITY);
    assert_eq!(glenum::DEBUG_TYPE_PERFORMANCE, gl::DEBUG_TYPE_PERFORMANCE);
    assert_eq!(glenum::DEBUG_TYPE_OTHER, gl::DEBUG_TYPE_OTHER);
    assert_eq!(glenum::DEBUG_TYPE_MARKER, gl::DEBUG_TYPE_MARKER);
    assert_eq!(glenum::DEBUG_TYPE_PUSH_GROUP, gl::DEBUG_TYPE_PUSH_GROUP);
    assert_eq!(glenum::DEBUG_TYPE_POP_GROUP, gl::DEBUG_TYPE_POP_GROUP);
    assert_eq!(glenum::DEBUG_SEVERITY_HIGH, gl::DEBUG_SEVERITY_HIGH);
    assert_eq!(glenum::DEBUG_SEVERITY_MEDIUM, gl::DEBUG_SEVERITY_MEDIUM);
    assert_eq!(glenum::DEBUG_SEVERITY_LOW, gl::DEBUG_SEVERITY_LOW);
    assert_eq!(glenum::DEBUG_SEVERITY_NOTIFICATION, gl::DEBUG_SEVERITY_NOTIFICATION);
}

#[test]
fn errors_are_shown_by_name() {
    assert_eq!(GLError::InvalidEnum.name(), "InvalidEnum");
    assert_eq!(GLError::InvalidValue.name(), "InvalidValue");
    assert_eq!(GLError::InvalidOperation.name(), "InvalidOperation");
    assert_eq!(GLError::StackOverflow.name(), "StackOverflow");
    assert_eq!(GLError::StackUnderflow.name(), "StackUnderflow");
    assert_eq!(GLError::OutOfMemory.name(), "OutOfMemory");
    assert_eq!(GLError::InvalidFramebufferOperation.name(), "InvalidFramebufferOperation");
    assert_eq!(GLError::ContextLost.name(), "ContextLost");
}

#[test]
fn insignificant_messages_are_dropped() {
    for id in [131_169u32, 131_185, 131_218, 131_204] {
        assert_eq!(
            error_callback(gl::DEBUG_SOURCE_API, gl::DEBUG_TYPE_ERROR, id, gl::DEBUG_SEVERITY_HIGH, "x"),
            None
        );
    }
}

#[test]
fn a_message_is_reported_in_two_lines() {
    let text = error_callback(
        gl::DEBUG_SOURCE_SHADER_COMPILER,
        gl::DEBUG_TYPE_UNDEFINED_BEHAVIOR,
        1282,
        gl::DEBUG_SEVERITY_MEDIUM,
        "bad call",
    );
    assert_eq!(
        text,
        Some(
            "Gl error: (1282), Source: Shader Compiler, Type: Undefined Behaviour, Severity: medium\nMessage: bad call"
                .to_string()
        )
    );
}

#[test]
fn every_source_type_and_severity_has_its_word() {
    let word = |source: u32, gltype: u32, severity: u32| {
        error_callback(source, gltype, 0, severity, "").unwrap()
    };
    let sources = [
        (gl::DEBUG_SOURCE_API, "API"),
        (gl::DEBUG_SOURCE_WINDOW_SYSTEM, "Window System"),
        (gl::DEBUG_SOURCE_SHADER_COMPILER, "Shader Compiler"),
        (gl::DEBUG_SOURCE_THIRD_PARTY, "Third Party"),
        (gl::DEBUG_SOURCE_APPLICATION, "Application"),
        (gl::DEBUG_SOURCE_OTHER, "Other"),
        (7, "Unknown enum value"),
    ];
    for (code, name) in sources {
        assert_eq!(
            word(code, gl::DEBUG_TYPE_ERROR, gl::DEBUG_SEVERITY_LOW),
            format!("Gl error: (0), Source: {}, Type: Error, Severity: low\nMessage: ", name)
        );
    }
    let types = [
        (gl::DEBUG_TYPE_ERROR, "Error"),
        (gl::DEBUG_TYPE_DEPRECATED_BEHAVIOR, "Deprecated Behaviour"),
        (gl::DEBUG_TYPE_UNDEFINED_BEHAVIOR, "Undefined Behaviour"),
        (gl::DEBUG_TYPE_PORTABILITY, "Portability"),
        (gl::DEBUG_TYPE_PERFORMANCE, "Performance"),
        (gl::DEBUG_TYPE_MARKER, "Marker"),
        (gl::DEBUG_TYPE_PUSH_GROUP, "Push Group"),
        (gl::DEBUG_TYPE_POP_GROUP, "Pop Group"),
        (gl::DEBUG_TYPE_OTHER, "Other"),
        (7, "Unknown enum value"),
    ];
    for (code, name) in types {
        assert_eq!(
            word(gl::DEBUG_SOURCE_API, code, gl::DEBUG_SEVERITY_HIGH),
            format!("Gl error: (0), Source: API, Type: {}, Severity: high\nMessage: ", name)
        );
    }
    let severities = [
        (gl::DEBUG_SEVERITY_HIGH, "high"),
        (gl::DEBUG_SEVERITY_MEDIUM, "medium"),
        (gl::DEBUG_SEVERITY_LOW, "low"),
        (gl::DEBUG_SEVERITY_NOTIFICATION, "notification"),
        (7, "Unknown enum value"),
    ];
    for (code, name) in severities {
        assert_eq!(
            word(gl::DEBUG_SOURCE_OTHER, gl::DEBUG_TYPE_OTHER, code),
            format!("Gl error: (0), Source: Other, Type: Other, Severity: {}\nMessage: ", name)
        );
    }
}

#[test]
fn decimal_text_of_counters() {
    assert_eq!(decimal_string(0), "0");
    assert_eq!(decimal_string(7), "7");
    assert_eq!(decimal_string(10), "10");
    assert_eq!(decimal_string(109), "109");
    assert_eq!(decimal_string(131_169), "131169");
    assert_eq!(decimal_string(u32::MAX), "4294967295");
}

#[test]
fn different_counters_have_different_texts() {
    let texts: Vec<String> = (0..1200).map(decimal_string).collect();
    for (n, text) in texts.iter().enumerate() {
        assert_eq!(text, &format!("{}", n));
    }
    assert_ne!(decimal_string(1), decimal_string(10));
    assert_ne!(decimal_string(100), decimal_string(1000));
}
