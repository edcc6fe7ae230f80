use churrera_studio::ide::{command_shell, compile_report, path_separator};
use churrera_studio::snippets::{insert_snippet, push_decimal, snippet_label, Snippet};

#[test]
fn decimal_notation() {
    let mut s = String::from("x=");
    push_decimal(&mut s, 0);
    assert_eq!(s, "x=0");
    let mut s = String::new();
    push_decimal(&mut s, 1207);
    assert_eq!(s, "1207");
    let mut s = String::new();
    push_decimal(&mut s, usize::MAX);
    assert_eq!(s, usize::MAX.to_string());
}

#[test]
fn screen_sections_name_the_screen() {
    let mut script = String::from("; demo");
    insert_snippet(&mut script, Snippet::EnteringScreen, 12);
    assert_eq!(script, "; demo\n\nENTERING SCREEN 12\nBEGIN\nEND");
    insert_snippet(&mut script, Snippet::PressFireScreen, 0);
    assert!(script.ends_with("\n\nPRESS_FIRE AT SCREEN 0\nBEGIN\nEND"));
}

#[test]
fn fixed_snippets() {
    let mut script = String::new();
    insert_snippet(&mut script, Snippet::WarpTo, 3);
    insert_snippet(&mut script, Snippet::IfLevel, 3);
    assert_eq!(script, "\n\t\tWARP_TO 2, 7, 5\n\tIF LEVEL = 0\n\tTHEN\n\t\t\n\tEND");
    assert_eq!(snippet_label(Snippet::IfFlagEqFlag), "IF FLAG = #n (флаг)");
    assert_eq!(snippet_label(Snippet::Reenter), "REENTER SCREEN");
}

#[test]
fn shells_and_separators() {
    assert_eq!(command_shell(true), ("cmd", "/C"));
    assert_eq!(command_shell(false), ("sh", "-c"));
    assert_eq!(path_separator(true), ";");
    assert_eq!(path_separator(false), ":");
}

#[test]
fn compile_reports() {
    assert_eq!(compile_report(true, "", "junk", 0, "OK", "FAIL: ", true), "OK");
    assert_eq!(compile_report(true, "  built\n", "", 0, "OK", "FAIL: ", true), "OK | built");
    assert_eq!(compile_report(false, "out", " err \n", 2, "OK", "FAIL: ", true), "FAIL: err");
    assert_eq!(compile_report(false, " out ", "", 2, "OK", "FAIL: ", true), "FAIL: out");
    assert_eq!(compile_report(false, "", "", -1, "OK", "FAIL: ", true), "FAIL: Process exited with code: -1");
    assert_eq!(
        compile_report(false, "", "", 127, "OK", "Ошибка: ", false),
        "Ошибка: Процесс завершился с системным кодом: 127"
    );
    assert_eq!(
        compile_report(false, "", "", i32::MIN, "", "", true),
        "Process exited with code: -2147483648"
    );
}

#[test]
fn reports_trim_unicode_white_space() {
    assert_eq!(compile_report(true, "\u{3000}\t ok\u{2009}\u{85}", "", 0, "OK", "F", true), "OK | ok");
    assert_eq!(compile_report(false, "", "\u{a0}a b\u{2028}", 1, "OK", "F: ", true), "F: a b");
    assert_eq!(compile_report(true, " \n ", "", 0, "OK", "F", true), "OK | ");
}
