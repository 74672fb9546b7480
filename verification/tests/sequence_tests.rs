use canvas_core::sequence::{
    digits_of, extension_place, fill_pattern, folio, holds_placeholder, number_pattern,
    padding_from, sequence_file_name, sequence_file_names, sequence_padding, Padding,
};
use canvas_core::text::same_text;

#[test]
fn digit_counts() {
    assert_eq!(digits_of(0), 1);
    assert_eq!(digits_of(1), 1);
    assert_eq!(digits_of(9), 1);
    assert_eq!(digits_of(10), 2);
    assert_eq!(digits_of(12), 2);
    assert_eq!(digits_of(99), 2);
    assert_eq!(digits_of(100), 3);
    assert_eq!(digits_of(999), 3);
    assert_eq!(digits_of(1000), 4);
    assert_eq!(digits_of(usize::MAX), usize::MAX.to_string().len());
}

#[test]
fn digit_count_is_the_rounded_up_logarithm() {
    for n in 1usize..=2000 {
        let expected = ((n as f64) + 1.0).log10().ceil() as usize;
        assert_eq!(digits_of(n), expected, "page count {}", n);
    }
}

#[test]
fn padding_is_explicit_or_automatic() {
    assert_eq!(sequence_padding(Padding::Auto, 12), 2);
    assert_eq!(sequence_padding(Padding::Auto, 9), 1);
    assert_eq!(sequence_padding(Padding::Auto, 100), 3);
    assert_eq!(sequence_padding(Padding::Width(5), 12), 5);
    assert_eq!(sequence_padding(Padding::Width(0), 12), 0);
}

#[test]
fn folio_is_zero_padded() {
    assert_eq!(folio(3, 2), "03");
    assert_eq!(folio(0, 2), "00");
    assert_eq!(folio(11, 2), "11");
    assert_eq!(folio(7, 4), "0007");
    assert_eq!(folio(0, 0), "0");
    assert_eq!(folio(0, 1), "0");
    assert_eq!(folio(12345, 2), "12345");
    assert_eq!(folio(9876543210, 10), "9876543210");
    assert_eq!(folio(usize::MAX, 0), usize::MAX.to_string());
}

#[test]
fn folio_matches_std_formatting() {
    for index in 0usize..300 {
        for width in 0usize..6 {
            assert_eq!(folio(index, width), format!("{:0width$}", index, width = width));
        }
    }
}

#[test]
fn pattern_placeholders_are_replaced() {
    assert_eq!(fill_pattern("name-{}.ext", "07"), "name-07.ext");
    assert_eq!(fill_pattern("plain.png", "07"), "plain.png");
    assert_eq!(fill_pattern("{}", "1"), "1");
    assert_eq!(fill_pattern("", "1"), "");
    assert_eq!(fill_pattern("{}-{}", "12"), "12-12");
    assert_eq!(fill_pattern("{{}}", "3"), "{3}");
    assert_eq!(fill_pattern("a{b}c{", "3"), "a{b}c{");
    assert_eq!(fill_pattern("}{", "3"), "}{");
    assert_eq!(fill_pattern("{}{}", ""), "");
    assert_eq!(fill_pattern("séance-{}.png", "04"), "séance-04.png");
}

#[test]
fn pattern_fill_matches_std_replace() {
    let patterns = ["out/{}.png", "{}{}{}", "{", "}", "{a}", "x{}y{}z", "{{{}}}", "日本{}語"];
    for pattern in patterns {
        assert_eq!(fill_pattern(pattern, "42"), pattern.replace("{}", "42"));
    }
}

#[test]
fn file_name_of_one_page() {
    assert_eq!(sequence_file_name("name-{}.ext", 0, 2), "name-00.ext");
    assert_eq!(sequence_file_name("name-{}.ext", 11, 2), "name-11.ext");
    assert_eq!(sequence_file_name("name-{}.ext", 5, 0), "name-5.ext");
    assert_eq!(sequence_file_name("name-{}.ext", 123, 2), "name-123.ext");
}

#[test]
fn twelve_pages_get_two_digits_from_zero() {
    let names = sequence_file_names("name-{}.ext", 12, Padding::Auto);
    let expected: Vec<String> = (0..12).map(|i| format!("name-{:02}.ext", i)).collect();
    assert_eq!(names, expected);
    assert_eq!(names[0], "name-00.ext");
    assert_eq!(names[11], "name-11.ext");
}

#[test]
fn automatic_padding_by_page_count() {
    assert_eq!(sequence_file_names("p{}", 1, Padding::Auto), vec!["p0"]);
    let nine = sequence_file_names("p{}", 9, Padding::Auto);
    assert_eq!(nine.len(), 9);
    assert_eq!(nine[8], "p8");
    let ten = sequence_file_names("p{}", 10, Padding::Auto);
    assert_eq!(ten.len(), 10);
    assert_eq!(ten[0], "p00");
    assert_eq!(ten[9], "p09");
    let hundred = sequence_file_names("p{}", 100, Padding::Auto);
    assert_eq!(hundred.len(), 100);
    assert_eq!(hundred[0], "p000");
    assert_eq!(hundred[99], "p099");
    for name in &hundred {
        assert_eq!(name.len(), 4);
    }
}

#[test]
fn explicit_padding_is_used_as_given() {
    assert_eq!(
        sequence_file_names("f-{}.jpg", 3, Padding::Width(4)),
        vec!["f-0000.jpg", "f-0001.jpg", "f-0002.jpg"]
    );
    assert_eq!(sequence_file_names("f-{}.jpg", 2, Padding::Width(0)), vec!["f-0.jpg", "f-1.jpg"]);
}

#[test]
fn no_pages_no_names() {
    assert!(sequence_file_names("f-{}.jpg", 0, Padding::Auto).is_empty());
}

#[test]
fn text_comparison() {
    assert!(same_text("pdf", "pdf"));
    assert!(same_text("", ""));
    assert!(!same_text("pdf", "pdg"));
    assert!(!same_text("pdf", "pd"));
    assert!(!same_text("pd", "pdf"));
    assert!(!same_text("PDF", "pdf"));
    assert!(same_text("é", "é"));
}

#[test]
fn placeholder_is_found() {
    assert!(holds_placeholder("name-{}.ext"));
    assert!(holds_placeholder("{}"));
    assert!(holds_placeholder("{{}}"));
    assert!(holds_placeholder("a{b}c{}"));
    assert!(holds_placeholder("é{}"));
    assert!(!holds_placeholder(""));
    assert!(!holds_placeholder("out.png"));
    assert!(!holds_placeholder("{"));
    assert!(!holds_placeholder("}{"));
    assert!(!holds_placeholder("a{b}c{"));
    assert!(!holds_placeholder("{ }"));
}

#[test]
fn placeholder_is_found_exactly_where_filling_changes_the_name() {
    let patterns = ["out/{}.png", "{", "}", "{a}", "x{}y{}z", "{{{}}}", "plain", "", "}{}{"];
    for pattern in patterns {
        assert_eq!(holds_placeholder(pattern), pattern.contains("{}"));
        assert_eq!(holds_placeholder(pattern), fill_pattern(pattern, "0") != fill_pattern(pattern, "1"));
    }
}

#[test]
fn padding_from_a_number() {
    assert_eq!(padding_from(None), Padding::Auto);
    assert_eq!(padding_from(Some(-1)), Padding::Auto);
    assert_eq!(padding_from(Some(-7)), Padding::Auto);
    assert_eq!(padding_from(Some(i64::MIN)), Padding::Auto);
    assert_eq!(padding_from(Some(0)), Padding::Width(0));
    assert_eq!(padding_from(Some(3)), Padding::Width(3));
    assert_eq!(padding_from(Some(12_345)), Padding::Width(12_345));
}

#[test]
fn names_of_a_sequence_differ_without_padding() {
    let names = sequence_file_names("{}1{}", 30, Padding::Width(0));
    for i in 0..names.len() {
        for j in (i + 1)..names.len() {
            assert_ne!(names[i], names[j]);
        }
    }
}

#[test]
fn extension_begins_at_the_last_dot_of_the_file_name() {
    assert_eq!(extension_place("out.png"), 3);
    assert_eq!(extension_place("archive.tar.gz"), 11);
    assert_eq!(extension_place("out"), 3);
    assert_eq!(extension_place(""), 0);
    assert_eq!(extension_place(".hidden"), 0);
    assert_eq!(extension_place("dir.v2/out"), 10);
    assert_eq!(extension_place("dir.v2\\out"), 10);
    assert_eq!(extension_place("dir.v2/out.png"), 10);
    assert_eq!(extension_place("dir/"), 4);
    assert_eq!(extension_place("out."), 3);
    assert_eq!(extension_place("séance.png"), 6);
}

#[test]
fn number_goes_into_every_pattern() {
    assert_eq!(number_pattern("name-{}.ext", "07"), "name-07.ext");
    assert_eq!(number_pattern("{}-{}", "12"), "12-12");
    assert_eq!(number_pattern("out.png", "07"), "out07.png");
    assert_eq!(number_pattern("archive.tar.gz", "3"), "archive.tar3.gz");
    assert_eq!(number_pattern("out", "07"), "out07");
    assert_eq!(number_pattern("", "07"), "07");
    assert_eq!(number_pattern(".hidden", "1"), "1.hidden");
    assert_eq!(number_pattern("dir.v2/out", "1"), "dir.v2/out1");
    assert_eq!(number_pattern("dir.v2/out.png", "1"), "dir.v2/out1.png");
    assert_eq!(number_pattern("a{b}c{", "5"), "a{b}c{5");
    assert_eq!(number_pattern("séance.png", "04"), "séance04.png");
    assert_eq!(number_pattern("out.png", ""), "out.png");
}

#[test]
fn names_without_a_placeholder() {
    assert_eq!(sequence_file_name("out.png", 0, 2), "out00.png");
    assert_eq!(sequence_file_name("out.png", 11, 2), "out11.png");
    assert_eq!(sequence_file_name("out.png", 5, 0), "out5.png");
    assert_eq!(
        sequence_file_names("name-.ext", 12, Padding::Auto),
        (0..12).map(|i| format!("name-{:02}.ext", i)).collect::<Vec<String>>()
    );
    assert_eq!(sequence_file_names("p", 3, Padding::Width(2)), vec!["p00", "p01", "p02"]);
}
