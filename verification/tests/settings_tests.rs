use chronos::ipc::settings::{is_note_extension_lowered, is_text_extension, vault_sync_result};
use chronos::lines::lines_of;
use chronos::settings::{
    all_values_maskable, find_setting, list_masked_settings, list_settings_text, mask_value,
    split_setting_line, upsert_setting,
};

#[test]
fn lines_follow_str_lines() {
    let cases = [
        "",
        "a",
        "a\n",
        "a\nb",
        "a\r\nb\r\n",
        "foo\nbar\n\r\nbaz\r",
        "\n\n",
        "x\ry\n",
    ];
    for c in cases.iter() {
        let expected: Vec<String> = c.lines().map(|l| l.to_string()).collect();
        assert_eq!(lines_of(c), expected, "lines of {:?}", c);
    }
}

#[test]
fn upsert_replaces_and_appends() {
    assert_eq!(upsert_setting("", "A", "1"), "A=1");
    assert_eq!(upsert_setting("A=old\nB=2", "A", "new"), "B=2\nA=new");
    assert_eq!(upsert_setting("B=2\nA=x\nA=y\nC=3", "A", "z"), "B=2\nC=3\nA=z");
    // a line that merely begins with the key's letters is kept
    assert_eq!(upsert_setting("AB=1", "A", "2"), "AB=1\nA=2");
    // carriage returns of the old lines go
    assert_eq!(upsert_setting("B=2\r\nC=3\r\n", "A", "1"), "B=2\nC=3\nA=1");
}

#[test]
fn saved_setting_reads_back() {
    let content = "MINIMAX_API_KEY=abc\nGEMINI_API_KEY=def\n";
    let updated = upsert_setting(content, "GEMINI_API_KEY", "xyz");
    assert_eq!(find_setting(&updated, "GEMINI_API_KEY").unwrap(), "xyz");
    assert_eq!(find_setting(&updated, "MINIMAX_API_KEY").unwrap(), "abc");
}

#[test]
fn find_takes_the_first_match() {
    assert_eq!(find_setting("A=1\nA=2", "A").unwrap(), "1");
    assert_eq!(find_setting("A=b=c", "A").unwrap(), "b=c");
    assert_eq!(find_setting("noeq\nK=v", "K").unwrap(), "v");
    assert_eq!(find_setting("K=", "K").unwrap(), "");
    assert_eq!(find_setting("A=1", "B").unwrap_err(), "Key not found");
    assert_eq!(find_setting("", "A").unwrap_err(), "Key not found");
}

#[test]
fn split_at_first_equals() {
    assert_eq!(
        split_setting_line("k=v=w"),
        Some(("k".to_string(), "v=w".to_string()))
    );
    assert_eq!(split_setting_line("=v"), Some((String::new(), "v".to_string())));
    assert_eq!(split_setting_line("none"), None);
}

#[test]
fn masking() {
    assert_eq!(mask_value("sk-1234567"), "sk****67");
    assert_eq!(mask_value("abcde"), "ab****de");
    assert_eq!(mask_value("abcd"), "****");
    assert_eq!(mask_value(""), "****");
    // byte length counts: two 2-byte characters make 4 bytes
    assert_eq!(mask_value("\u{e9}\u{e9}"), "****");
    assert_eq!(mask_value("\u{e9}xyz\u{e9}"), "\u{e9}****\u{e9}");
}

#[test]
fn listing_masks_values() {
    let content = "MINIMAX_API_KEY=sk-abcdef\nshort=ab\nnot a setting\n";
    assert!(all_values_maskable(content));
    let listed = list_masked_settings(content);
    assert_eq!(
        listed,
        vec![
            ("MINIMAX_API_KEY".to_string(), "sk****ef".to_string()),
            ("short".to_string(), "****".to_string()),
        ]
    );
}

#[test]
fn listing_needs_whole_characters_at_the_cuts() {
    // 'é' is two bytes: byte 2 falls inside it
    assert!(!all_values_maskable("K=a\u{e9}bcd"));
    assert!(all_values_maskable("K=ab\u{e9}cd"));
}

#[test]
fn listing_reports_values_it_cannot_mask() {
    assert_eq!(
        list_settings_text("A=abcdef\nK=a\u{e9}bcd\n"),
        Err("byte index is not a char boundary".to_string())
    );
    assert_eq!(
        list_settings_text("A=abcdef\nK=ab\u{e9}cd\n"),
        Ok(vec![
            ("A".to_string(), "ab****ef".to_string()),
            ("K".to_string(), "ab****cd".to_string()),
        ])
    );
    assert_eq!(list_settings_text(""), Ok(vec![]));
}

#[test]
fn saving_keeps_crlf_settings_and_defines_the_key_once() {
    let content = "A=1\r\nB=2\r\nB=3\r\n";
    let updated = upsert_setting(content, "B", "9");
    assert_eq!(updated, "A=1\nB=9");
    assert_eq!(find_setting(&updated, "A"), Ok("1".to_string()));
    assert_eq!(find_setting(content, "A"), Ok("1".to_string()));
    assert_eq!(updated.lines().filter(|l| l.starts_with("B=")).count(), 1);
    // a value that itself ends in a carriage return loses it on rewrite
    let odd = "X=1\r\r\nY=2";
    assert_eq!(find_setting(odd, "X"), Ok("1\r".to_string()));
    let rewritten = upsert_setting(odd, "Y", "3");
    assert_eq!(find_setting(&rewritten, "X"), Ok("1".to_string()));
}

#[test]
fn note_extensions() {
    for e in ["md", "txt", "org", "note", "markdown", "MD", "Txt", "MarkDown"].iter() {
        assert!(is_text_extension(e), "{}", e);
    }
    for e in ["rs", "pdf", "", "mdx"].iter() {
        assert!(!is_text_extension(e), "{}", e);
    }
    assert!(is_note_extension_lowered("md"));
    assert!(!is_note_extension_lowered("MD"));
}

#[test]
fn sync_report_keeps_twenty_errors() {
    let errors: Vec<String> = (0..25).map(|i| format!("e{}", i)).collect();
    let r = vault_sync_result(7, errors.clone());
    assert_eq!(r.processed, 7);
    assert_eq!(r.errors, errors[..20].to_vec());
    let r = vault_sync_result(0, vec!["one".to_string()]);
    assert_eq!(r.errors, vec!["one".to_string()]);
}
