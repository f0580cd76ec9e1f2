use uploader::classify::classify;
use uploader::decimal::decimal_string;
use uploader::decode::{decode_batch, parse_format, parse_privacy, str_eq};
use uploader::persist::{collect_errors, plan_batch, plan_file, PlanItem};
use uploader::report::{batch_outcome, error, summarize};
use uploader::resolve::resolve_filename;
use uploader::types::{FileMeta, Format, Privacy, UploadBatch, ValidationError};

fn meta(name: Option<&str>, size: u64) -> FileMeta {
    FileMeta { name: name.map(|s| s.to_owned()), size }
}

#[test]
fn str_eq_agrees_with_equality() {
    assert!(str_eq("can-be-public", "can-be-public"));
    assert!(!str_eq("can-be-public", "keep-private"));
    assert!(!str_eq("a", "ab"));
    assert!(str_eq("", ""));
}

#[test]
fn privacy_tokens_parse() {
    assert_eq!(parse_privacy("can-be-public"), Ok(Privacy::Public));
    assert_eq!(parse_privacy("keep-private"), Ok(Privacy::Private));
    assert_eq!(parse_privacy("private"), Err(ValidationError::UnknownPrivacy));
    assert_eq!(parse_privacy(""), Err(ValidationError::UnknownPrivacy));
}

#[test]
fn format_tokens_parse() {
    assert_eq!(parse_format("format-a"), Ok(Format::FormatA));
    assert_eq!(parse_format("format-b"), Ok(Format::FormatB));
    assert_eq!(parse_format("json"), Err(ValidationError::UnknownFormat));
}

#[test]
fn single_empty_file_is_no_files_selected() {
    let files = vec![meta(Some("a.txt"), 0)];
    let r = decode_batch("can-be-public", "format-b", files);
    assert!(matches!(r, Err(ValidationError::NoFilesSelected)));
}

#[test]
fn unknown_enum_fields_are_rejected() {
    let r = decode_batch("loud", "format-b", vec![meta(Some("a.txt"), 3)]);
    assert!(matches!(r, Err(ValidationError::UnknownPrivacy)));
    let r = decode_batch("keep-private", "yaml", vec![meta(Some("a.txt"), 3)]);
    assert!(matches!(r, Err(ValidationError::UnknownFormat)));
}

#[test]
fn mixed_empty_files_still_decode() {
    let files = vec![meta(Some("a.txt"), 0), meta(Some("b.txt"), 9)];
    let r = decode_batch("keep-private", "format-a", files);
    let batch = r.unwrap_or_else(|_| panic!("batch should decode"));
    assert_eq!(batch.files.len(), 2);
    assert_eq!(batch.privacy, Privacy::Private);
    assert_eq!(batch.format, Format::FormatA);
}

#[test]
fn classification_table_is_fixed() {
    assert_eq!(classify(Format::FormatA, Privacy::Public), "a/public");
    assert_eq!(classify(Format::FormatA, Privacy::Private), "a/private");
    assert_eq!(classify(Format::FormatB, Privacy::Public), "b/public");
    assert_eq!(classify(Format::FormatB, Privacy::Private), "b/private");
}

#[test]
fn classifier_is_deterministic() {
    let first = classify(Format::FormatA, Privacy::Private);
    let second = classify(Format::FormatA, Privacy::Private);
    assert_eq!(first, second);
    assert_eq!(first, "a/private");
}

#[test]
fn decimal_rendering_is_exact() {
    assert_eq!(decimal_string(0), "0");
    assert_eq!(decimal_string(7), "7");
    assert_eq!(decimal_string(103), "103");
    assert_eq!(decimal_string(1698765432100), "1698765432100");
}

#[test]
fn resolver_is_a_pure_function() {
    let name = Some("report.txt".to_owned());
    let a = resolve_filename(1234, &name, 0);
    let b = resolve_filename(1234, &name, 0);
    assert_eq!(a, b);
    assert_eq!(a, "1234_report.txt");
}

#[test]
fn resolver_falls_back_to_index() {
    assert_eq!(resolve_filename(1234, &None, 7), "1234_7");
    assert_eq!(resolve_filename(1234, &Some("".to_owned()), 2), "1234_2");
    assert_eq!(resolve_filename(1234, &Some("..".to_owned()), 3), "1234_3");
    assert_eq!(resolve_filename(1234, &Some("///".to_owned()), 4), "1234_4");
}

#[test]
fn traversal_names_cannot_escape() {
    let name = Some("../../etc/passwd".to_owned());
    let resolved = resolve_filename(99, &name, 0);
    assert!(!resolved.contains('/'));
    assert!(!resolved.contains('\\'));
    assert_eq!(resolved, "99_....etcpasswd");
}

#[test]
fn plan_skips_empty_and_stores_others() {
    let empty = meta(Some("a.txt"), 0);
    let full = meta(Some("a.txt"), 5);
    assert!(matches!(plan_file(&empty, Format::FormatB, Privacy::Public, 7, 0), PlanItem::Skip));
    match plan_file(&full, Format::FormatB, Privacy::Public, 7, 0) {
        PlanItem::Store(path) => assert_eq!(path, "uploads/b/public/7_a.txt"),
        PlanItem::Skip => panic!("non-empty file must be stored"),
    }
}

#[test]
fn empty_indexes_are_reported_in_order() {
    let batch = UploadBatch {
        files: vec![
            meta(Some("a.txt"), 5),
            meta(Some("b.txt"), 0),
            meta(Some("c.txt"), 7),
            meta(Some("d.txt"), 0),
            meta(Some("e.txt"), 9),
        ],
        privacy: Privacy::Public,
        format: Format::FormatA,
    };
    let plan = plan_batch(&batch, 55);
    assert_eq!(plan.len(), 5);
    let moved = vec![true, true, true, true, true];
    let errors = collect_errors(&plan, &moved);
    assert_eq!(errors, vec![1, 3]);
}

#[test]
fn each_attachment_stored_or_reported() {
    let batch = UploadBatch {
        files: vec![meta(Some("a.txt"), 5), meta(None, 0), meta(Some("c.txt"), 7)],
        privacy: Privacy::Private,
        format: Format::FormatB,
    };
    let plan = plan_batch(&batch, 100);
    // the move of the third attachment fails
    let moved = vec![true, false, false];
    let errors = collect_errors(&plan, &moved);
    for i in 0..batch.files.len() {
        let stored = matches!(plan[i], PlanItem::Store(_)) && moved[i];
        let reported = errors.contains(&i);
        assert!(stored != reported, "attachment {i} must end in exactly one state");
    }
    assert_eq!(errors, vec![1, 2]);
}

#[test]
fn duplicate_names_collide_and_second_fails() {
    let batch = UploadBatch {
        files: vec![meta(Some("same.txt"), 4), meta(Some("same.txt"), 6)],
        privacy: Privacy::Public,
        format: Format::FormatB,
    };
    let plan = plan_batch(&batch, 42);
    let (first, second) = match (&plan[0], &plan[1]) {
        (PlanItem::Store(a), PlanItem::Store(b)) => (a.clone(), b.clone()),
        _ => panic!("both files are non-empty"),
    };
    assert_eq!(first, second);
    // the filesystem refuses the second move onto the occupied path
    let moved = vec![true, false];
    let errors = collect_errors(&plan, &moved);
    assert_eq!(errors, vec![1]);
}

#[test]
fn summary_counts_and_lists_indexes() {
    assert_eq!(summarize(&vec![]), None);
    let msg = summarize(&vec![1, 3]).unwrap_or_else(|| panic!("non-empty errors need a summary"));
    assert_eq!(msg, "Error uploading 2 files with the following indexes [1, 3]");
    let one = summarize(&vec![0]).unwrap_or_else(|| panic!("non-empty errors need a summary"));
    assert_eq!(one, "Error uploading 1 files with the following indexes [0]");
}

#[test]
fn outcome_signals_success_or_carries_summary() {
    assert!(batch_outcome(&vec![]).is_ok());
    match batch_outcome(&vec![2]) {
        Err(m) => assert_eq!(m, "Error uploading 1 files with the following indexes [2]"),
        Ok(()) => panic!("failed indexes must fail the batch"),
    }
    // the result page accepts the summary without computing anything
    error("Error uploading 1 files with the following indexes [2]");
}
