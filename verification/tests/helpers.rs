use weapon_catalog::helpers::{is_white_space_char, random_choice, split_and_collect};

fn strings(items: &[&str]) -> Vec<String> {
    items.iter().map(|item| item.to_string()).collect()
}

#[test]
fn split_and_collect_trims_each_part() {
    assert_eq!(split_and_collect("a, b, c", ','), strings(&["a", "b", "c"]));
}

#[test]
fn split_and_collect_of_empty_text_is_empty() {
    assert_eq!(split_and_collect("", ','), Vec::<String>::new());
}

#[test]
fn split_and_collect_keeps_empty_parts() {
    assert_eq!(split_and_collect(",", ','), strings(&["", ""]));
    assert_eq!(split_and_collect("a,,b", ','), strings(&["a", "", "b"]));
    assert_eq!(split_and_collect(",a,", ','), strings(&["", "a", ""]));
    assert_eq!(split_and_collect(" ", ','), strings(&[""]));
    assert_eq!(split_and_collect(" , ", ','), strings(&["", ""]));
}

#[test]
fn split_and_collect_without_delimiter_gives_one_part() {
    assert_eq!(split_and_collect("  Active  ", ','), strings(&["Active"]));
    assert_eq!(split_and_collect("a b", ','), strings(&["a b"]));
}

#[test]
fn split_and_collect_keeps_inner_white_space() {
    assert_eq!(
        split_and_collect("Active, Very  Energetic ,\tGentle\n", ','),
        strings(&["Active", "Very  Energetic", "Gentle"])
    );
}

#[test]
fn split_and_collect_handles_other_delimiters_and_scripts() {
    assert_eq!(split_and_collect("ä ; ö;ü", ';'), strings(&["ä", "ö", "ü"]));
    assert_eq!(split_and_collect("一、二、 三", '、'), strings(&["一", "二", "三"]));
    assert_eq!(split_and_collect("\u{3000}x\u{a0}|y\u{2003}", '|'), strings(&["x", "y"]));
}

#[test]
fn split_and_collect_agrees_with_split_and_trim() {
    let texts = [
        "a, b, c",
        ",,",
        "  lead",
        "trail  ",
        " , x ,, y z ,",
        "no delimiter",
        "\t\n,\r\n",
        "Affectionate, Social, Intelligent, Playful, Active",
    ];
    for text in texts {
        let expected: Vec<String> = text.split(',').map(|part| part.trim().to_owned()).collect();
        assert_eq!(split_and_collect(text, ','), expected, "{:?}", text);
    }
}

#[test]
fn white_space_is_what_char_says() {
    for code in 0..=0x10ffffu32 {
        if let Some(c) = char::from_u32(code) {
            assert_eq!(is_white_space_char(c), c.is_whitespace(), "U+{:04X}", code);
        }
    }
}

#[test]
fn white_space_examples() {
    assert!(is_white_space_char(' '));
    assert!(is_white_space_char('\t'));
    assert!(is_white_space_char('\n'));
    assert!(is_white_space_char('\u{a0}'));
    assert!(is_white_space_char('\u{3000}'));
    assert!(!is_white_space_char('a'));
    assert!(!is_white_space_char('_'));
    assert!(!is_white_space_char('\u{200b}'));
    assert!(!is_white_space_char('\u{180e}'));
}

#[test]
fn random_choice_of_nothing_is_none() {
    let nothing: Vec<i32> = Vec::new();
    assert_eq!(random_choice(&nothing), None);
}

#[test]
fn random_choice_of_one_is_that_one() {
    let one = vec!["only".to_string()];
    for _ in 0..20 {
        assert_eq!(random_choice(&one), Some(&one[0]));
    }
}

#[test]
fn random_choice_is_one_of_the_items() {
    let items = vec![3, 5, 8, 13];
    for _ in 0..200 {
        let choice = random_choice(&items).unwrap();
        assert!(items.contains(choice));
    }
}
