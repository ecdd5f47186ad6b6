use plunger::text::contains;

#[test]
fn contains_finds_a_tag_inside_a_name() {
    assert!(contains("STM32L071KBTx", "STM32L0"));
    assert!(contains("xxstm32l0", "stm32l0"));
    assert!(!contains("STM32F407", "STM32L0"));
    assert!(contains("anything", ""));
    assert!(!contains("", "a"));
}

#[test]
fn contains_finds_a_needle_at_every_offset() {
    assert!(contains("abc", "abc"));
    assert!(contains("abc", "a"));
    assert!(contains("abc", "bc"));
    assert!(contains("abc", "c"));
    assert!(!contains("abc", "abcd"));
    assert!(!contains("abc", "ac"));
    assert!(!contains("aab", "aba"));
    assert!(contains("aaab", "aab"));
    assert!(contains("", ""));
    assert!(contains("größe-STM32L0-µ", "STM32L0"));
    assert!(contains("größe", "öß"));
    assert!(!contains("grosse", "öß"));
}

#[test]
fn same_text_compares_whole_strings() {
    assert!(plunger::text::same_text("", ""));
    assert!(plunger::text::same_text("bin", "bin"));
    assert!(!plunger::text::same_text("bin", "Bin"));
    assert!(!plunger::text::same_text("bin", "bin "));
    assert!(!plunger::text::same_text("bi", "bin"));
    assert_eq!(plunger::text::chars_of("aµb"), vec!['a', 'µ', 'b']);
}
