use inmobiliaria_inbox::endpoints::health_url;
use inmobiliaria_inbox::endpoints::login_url;
use inmobiliaria_inbox::endpoints::refresh_url;
use inmobiliaria_inbox::endpoints::upload_url;
use inmobiliaria_inbox::errors::classify_error;
use inmobiliaria_inbox::errors::humanize_error;
use inmobiliaria_inbox::errors::ErrorCategory;
use inmobiliaria_inbox::clock::timestamp_text;
use inmobiliaria_inbox::paths::file_display_name;
use inmobiliaria_inbox::paths::same_file;
use inmobiliaria_inbox::paths::same_parts;
use inmobiliaria_inbox::text::chars_of;
use inmobiliaria_inbox::text::contains;
use inmobiliaria_inbox::text::decimal_text;
use inmobiliaria_inbox::text::ends_with;
use inmobiliaria_inbox::text::same_text;
use inmobiliaria_inbox::text::starts_with;
use inmobiliaria_inbox::text::strip_trailing;
use inmobiliaria_inbox::transfer::plan_upload;
use inmobiliaria_inbox::transfer::upload_outcome;
use inmobiliaria_inbox::transfer::UploadFailure;
use inmobiliaria_inbox::transfer::UploadRequest;

#[test]
fn chars_of_lists_characters() {
    assert_eq!(chars_of("añ—"), vec!['a', 'ñ', '—']);
    assert_eq!(chars_of(""), Vec::<char>::new());
}

#[test]
fn text_predicates_agree_with_std() {
    let words = ["", "a", "ab", "abc", "bc", "abcabc", "ñandú", "dú", "ña", "x"];
    for hay in words {
        for needle in words {
            assert_eq!(starts_with(hay, needle), hay.starts_with(needle));
            assert_eq!(ends_with(hay, needle), hay.ends_with(needle));
            assert_eq!(contains(hay, needle), hay.contains(needle));
            assert_eq!(same_text(hay, needle), hay == needle);
        }
    }
}

#[test]
fn strip_trailing_removes_the_whole_run() {
    assert_eq!(strip_trailing("http://srv///", '/'), "http://srv");
    assert_eq!(strip_trailing("http://srv", '/'), "http://srv");
    assert_eq!(strip_trailing("///", '/'), "");
    assert_eq!(strip_trailing("", '/'), "");
    assert_eq!(strip_trailing("a/b", '/'), "a/b");
}

#[test]
fn decimal_text_prints_numbers() {
    assert_eq!(decimal_text(0), "0");
    assert_eq!(decimal_text(7), "7");
    assert_eq!(decimal_text(10), "10");
    assert_eq!(decimal_text(1234567890), "1234567890");
    assert_eq!(decimal_text(u64::MAX), u64::MAX.to_string());
}

#[test]
fn endpoints_ignore_trailing_slashes() {
    assert_eq!(health_url("http://srv/"), "http://srv/api/health");
    assert_eq!(health_url("http://srv"), "http://srv/api/health");
    assert_eq!(upload_url("http://srv//"), "http://srv/api/collections/files_inbox/records");
    assert_eq!(login_url("http://srv"), "http://srv/api/collections/users/auth-with-password");
    assert_eq!(refresh_url("http://srv/"), "http://srv/api/collections/users/auth-refresh");
}

#[test]
fn errors_are_sorted_into_categories() {
    assert_eq!(classify_error("HTTP 413"), ErrorCategory::PayloadTooLarge);
    assert_eq!(classify_error("file too large"), ErrorCategory::PayloadTooLarge);
    assert_eq!(classify_error("bad payload"), ErrorCategory::PayloadTooLarge);
    assert_eq!(classify_error("status 401"), ErrorCategory::Unauthorized);
    assert_eq!(classify_error("status 403"), ErrorCategory::Unauthorized);
    assert_eq!(classify_error("Not authenticated"), ErrorCategory::Unauthorized);
    assert_eq!(classify_error("operation timeout"), ErrorCategory::Timeout);
    assert_eq!(classify_error("request timed out"), ErrorCategory::Timeout);
    assert_eq!(classify_error("connection refused"), ErrorCategory::ConnectionFailure);
    assert_eq!(classify_error("dns error"), ErrorCategory::ConnectionFailure);
    assert_eq!(classify_error("failed to resolve"), ErrorCategory::ConnectionFailure);
    assert_eq!(classify_error("Failed to read file: x"), ErrorCategory::LocalRead);
    assert_eq!(classify_error("something else"), ErrorCategory::Unclassified);
    assert_eq!(classify_error(""), ErrorCategory::Unclassified);
    assert_eq!(classify_error("No user ID found"), ErrorCategory::Unauthorized);
}

#[test]
fn first_matching_category_wins() {
    assert_eq!(classify_error("401 after timeout"), ErrorCategory::Unauthorized);
    assert_eq!(classify_error("timeout on connection"), ErrorCategory::Timeout);
    assert_eq!(classify_error("Failed to read file: 413"), ErrorCategory::PayloadTooLarge);
    assert_eq!(classify_error("Payload Too Large"), ErrorCategory::Unclassified);
}

#[test]
fn humanized_messages_are_exact() {
    assert_eq!(humanize_error("413"), "El servidor rechazó el archivo por ser muy grande");
    assert_eq!(humanize_error("401"), "Sin autorización — cerrá sesión y volvé a ingresar");
    assert_eq!(
        humanize_error("timeout"),
        "Tiempo de espera agotado — conexión lenta o servidor no responde"
    );
    assert_eq!(humanize_error("connection"), "Error de conexión — verificá tu internet");
    assert_eq!(humanize_error("Failed to read file"), "No se pudo leer el archivo");
    assert_eq!(humanize_error("raro"), "Error inesperado al subir el archivo");
    assert_eq!(humanize_error(""), "Error inesperado al subir el archivo");
    assert_eq!(humanize_error("boom: /home/u/x"), "Error inesperado al subir el archivo");
    assert!(!humanize_error("boom: /home/u/x").contains("boom"));
    assert_eq!(
        humanize_error("No user ID found"),
        "Sin autorización — cerrá sesión y volvé a ingresar"
    );
}

#[test]
fn display_name_is_the_final_component() {
    assert_eq!(file_display_name("/inbox/a.pdf"), "a.pdf");
    assert_eq!(file_display_name("/inbox/dir/"), "dir");
    assert_eq!(file_display_name("a.pdf"), "a.pdf");
    assert_eq!(file_display_name("/"), "");
    assert_eq!(file_display_name("/inbox/.."), "");
}

#[test]
fn upload_needs_token_then_user() {
    assert_eq!(
        plan_upload("/inbox/a.pdf", "http://srv", None, Some("u".to_string())),
        Err(UploadFailure::NotAuthenticated)
    );
    assert_eq!(
        plan_upload("/inbox/a.pdf", "http://srv", None, None),
        Err(UploadFailure::NotAuthenticated)
    );
    assert_eq!(
        plan_upload("/inbox/a.pdf", "http://srv", Some("t".to_string()), None),
        Err(UploadFailure::NoUserId)
    );
}

#[test]
fn upload_plan_is_complete() {
    assert_eq!(
        plan_upload("/inbox/a.pdf", "http://srv/", Some("tok".to_string()), Some("u1".to_string())),
        Ok(UploadRequest {
            url: "http://srv/api/collections/files_inbox/records".to_string(),
            authorization: "tok".to_string(),
            file_name: "a.pdf".to_string(),
            mime_type: "application/pdf".to_string(),
            user: "u1".to_string(),
            status: "pending".to_string(),
        })
    );
}

#[test]
fn media_type_is_guessed_from_extension() {
    let guess = |path: &str| {
        plan_upload(path, "s", Some("t".to_string()), Some("u".to_string())).unwrap().mime_type
    };
    assert_eq!(guess("/inbox/b.jpg"), "image/jpeg");
    assert_eq!(guess("/inbox/B.PNG"), "image/png");
    assert_eq!(guess("/inbox/noext"), "application/octet-stream");
    assert_eq!(guess("/inbox/a.unknownext"), "application/octet-stream");
}

#[test]
fn failure_texts_are_exact() {
    assert_eq!(UploadFailure::NotAuthenticated.text(), "Not authenticated");
    assert_eq!(UploadFailure::NoUserId.text(), "No user ID found");
    assert_eq!(
        UploadFailure::ReadFailed { reason: "gone".to_string() }.text(),
        "Failed to read file: gone"
    );
    assert_eq!(
        UploadFailure::InvalidMediaType { reason: "bad".to_string() }.text(),
        "Invalid MIME type: bad"
    );
    assert_eq!(
        UploadFailure::RequestFailed { reason: "reset".to_string() }.text(),
        "Upload request failed: reset"
    );
    assert_eq!(
        UploadFailure::Rejected {
            code: 500,
            reason: "Internal Server Error".to_string(),
            body: "x".to_string()
        }
        .text(),
        "Upload failed (500 Internal Server Error): x"
    );
}

#[test]
fn failures_map_to_categories() {
    assert_eq!(
        classify_error(&UploadFailure::NotAuthenticated.text()),
        ErrorCategory::Unauthorized
    );
    assert_eq!(
        classify_error(&UploadFailure::ReadFailed { reason: "gone".to_string() }.text()),
        ErrorCategory::LocalRead
    );
    assert_eq!(
        classify_error(&UploadFailure::NoUserId.text()),
        ErrorCategory::Unauthorized
    );
    assert_eq!(
        classify_error(
            &UploadFailure::Rejected {
                code: 413,
                reason: "Payload Too Large".to_string(),
                body: String::new()
            }
            .text()
        ),
        ErrorCategory::PayloadTooLarge
    );
    assert_eq!(
        classify_error(
            &UploadFailure::Rejected { code: 413, reason: String::new(), body: String::new() }
                .text()
        ),
        ErrorCategory::PayloadTooLarge
    );
}

#[test]
fn only_2xx_is_success() {
    assert_eq!(upload_outcome(200, "OK".to_string(), String::new()), Ok(()));
    assert_eq!(upload_outcome(204, "No Content".to_string(), String::new()), Ok(()));
    assert_eq!(upload_outcome(299, String::new(), String::new()), Ok(()));
    assert_eq!(
        upload_outcome(199, "x".to_string(), "b".to_string()),
        Err(UploadFailure::Rejected { code: 199, reason: "x".to_string(), body: "b".to_string() })
    );
    assert_eq!(
        upload_outcome(300, "y".to_string(), "b".to_string()),
        Err(UploadFailure::Rejected { code: 300, reason: "y".to_string(), body: "b".to_string() })
    );
    assert_eq!(
        upload_outcome(413, "Payload Too Large".to_string(), "big".to_string()),
        Err(UploadFailure::Rejected {
            code: 413,
            reason: "Payload Too Large".to_string(),
            body: "big".to_string()
        })
    );
}

#[test]
fn every_category_has_its_fixed_message() {
    assert_eq!(
        ErrorCategory::PayloadTooLarge.message(),
        "El servidor rechazó el archivo por ser muy grande"
    );
    assert_eq!(
        ErrorCategory::Unauthorized.message(),
        "Sin autorización — cerrá sesión y volvé a ingresar"
    );
    assert_eq!(
        ErrorCategory::Timeout.message(),
        "Tiempo de espera agotado — conexión lenta o servidor no responde"
    );
    assert_eq!(
        ErrorCategory::ConnectionFailure.message(),
        "Error de conexión — verificá tu internet"
    );
    assert_eq!(ErrorCategory::LocalRead.message(), "No se pudo leer el archivo");
    assert_eq!(ErrorCategory::Unclassified.message(), "Error inesperado al subir el archivo");
}

#[test]
fn missing_user_id_is_shown_as_authorization_failure() {
    let plan = plan_upload("/inbox/a.pdf", "http://srv", Some("t".to_string()), None);
    let failure = plan.unwrap_err();
    assert_eq!(failure, UploadFailure::NoUserId);
    assert_eq!(
        humanize_error(&failure.text()),
        "Sin autorización — cerrá sesión y volvé a ingresar"
    );
}

#[test]
fn same_file_goes_by_components() {
    assert!(same_file("/inbox/a.pdf", "/inbox//a.pdf"));
    assert!(same_file("/inbox/a.pdf", "/inbox/./a.pdf"));
    assert!(same_file("/inbox/dir/", "/inbox/dir"));
    assert!(!same_file("/inbox/a.pdf", "/inbox/b.pdf"));
    assert!(!same_file("/inbox/a.pdf", "inbox/a.pdf"));
    assert!(!same_file("/inbox/a.pdf", "/inbox/A.pdf"));
    assert!(same_parts(&vec!["a".to_string()], &vec!["a".to_string()]));
    assert!(!same_parts(&vec!["a".to_string()], &vec!["a".to_string(), "b".to_string()]));
    assert!(!same_parts(&vec!["a".to_string()], &vec!["b".to_string()]));
    assert!(same_parts(&vec![], &vec![]));
}

#[test]
fn timestamp_falls_back_to_the_unknown_mark() {
    assert_eq!(timestamp_text(Some("10:11:12".to_string())), "10:11:12");
    assert_eq!(timestamp_text(None), "--:--:--");
}
