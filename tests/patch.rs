use fsharp_definitions::patch::patch;

#[test]
fn patch_collapses_empty_pairs() {
    assert_eq!(patch("a {   } b [ \n ]"), "a {} b []");
}

#[test]
fn patch_normalizes_separators() {
    assert_eq!(patch("{ x : int64 ; y  :  string }"), "{ x: int64; y: string }");
}

#[test]
fn patch_drops_trailing_blanks_and_blank_lines() {
    assert_eq!(patch("type A = int64   \n\n\n\ntype B = string"), "type A = int64\ntype B = string");
}

#[test]
fn patch_keeps_clean_text() {
    let s = "type MsgA = { x: int64 }\ntype Msg =\n  | A of MsgA";
    assert_eq!(patch(s), s);
}
