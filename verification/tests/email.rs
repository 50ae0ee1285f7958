use auth_backend::email::matches_email;
use auth_backend::utils::validate_email;

const PATTERN: &str =
    r"^([a-z0-9_+]([a-z0-9_+.]*[a-z0-9_+])?)@([a-z0-9]+([\-\.]{1}[a-z0-9]+)*\.[a-z]{2,6})$";

/// The rule as a regular expression over ASCII that tells no capital from
/// its small letter.
fn pattern() -> regex::Regex {
    regex::RegexBuilder::new(PATTERN).case_insensitive(true).unicode(false).build().unwrap()
}

fn accepts(text: &str) -> bool {
    validate_email(&text.to_string())
}

#[test]
fn plain_addresses_are_accepted() {
    assert!(accepts("a@b.co"));
    assert!(accepts("u@x.com"));
    assert!(accepts("john.doe@example.com"));
    assert!(accepts("john_doe+tag@mail.example.org"));
    assert!(accepts("0@0.aa"));
    assert!(accepts("a..b@c.de"));
    assert!(accepts("user@my-host.museum"));
    assert!(accepts("user@a-b.c-d.ef"));
}

#[test]
fn text_without_an_address_is_rejected() {
    assert!(!accepts("not-an-email"));
    assert!(!accepts(""));
    assert!(!accepts("@"));
    assert!(!accepts("a@"));
    assert!(!accepts("@b.co"));
    assert!(!accepts("a@b"));
    assert!(!accepts("a@b."));
    assert!(!accepts("a@b.c"));
    assert!(!accepts("a b@c.de"));
}

#[test]
fn local_part_neither_begins_nor_ends_with_a_dot() {
    assert!(!accepts(".a@b.co"));
    assert!(!accepts("a.@b.co"));
    assert!(!accepts(".@b.co"));
    assert!(accepts("a.b@b.co"));
}

#[test]
fn letter_case_makes_no_difference() {
    assert!(accepts("A@B.CO"));
    assert!(accepts("A@b.co"));
    assert!(accepts("a@B.co"));
    assert!(accepts("a@b.CO"));
    assert!(accepts("a@b.cO"));
    assert!(accepts("John.Doe@Example.COM"));
    for text in ["a@b.co", "A@B.CO", "Not-An-Email", "A@B", "A.@B.CO", "A@B..CO", "A@B.C", "Z@Z.ZZ"]
    {
        assert_eq!(accepts(text), accepts(&text.to_ascii_lowercase()), "on {:?}", text);
        assert_eq!(accepts(text), accepts(&text.to_ascii_uppercase()), "on {:?}", text);
    }
}

#[test]
fn host_runs_are_separated_by_single_separators() {
    assert!(!accepts("a@b..co"));
    assert!(!accepts("a@b--c.de"));
    assert!(!accepts("a@b-.co"));
    assert!(!accepts("a@b.-co"));
    assert!(!accepts("a@-b.co"));
    assert!(!accepts("a@.b.co"));
    assert!(accepts("a@b-c.de"));
    assert!(accepts("a@b.c.de"));
}

#[test]
fn suffix_is_two_to_six_letters() {
    assert!(!accepts("a@b.c"));
    assert!(accepts("a@b.cd"));
    assert!(accepts("a@b.cdefgh"));
    assert!(!accepts("a@b.cdefghi"));
    assert!(!accepts("a@b.c1"));
    assert!(!accepts("a@b.1c"));
    assert!(!accepts("a@b.12"));
    assert!(!accepts("a@b.cd1"));
    assert!(!accepts("a@b.cd-ef"));
    // the runs of the host may hold digits, the suffix may not
    assert!(accepts("a@b.1.c2.de"));
    assert!(accepts("a@1.2.ab"));
}

#[test]
fn the_whole_text_must_be_an_address() {
    assert!(!accepts("a@b.co junk!"));
    assert!(!accepts("a@b.co and more"));
    assert!(!accepts("a@b.com!!!"));
    assert!(!accepts("a@b.co@c.de"));
    assert!(!accepts("a@b.co\n"));
    assert!(!accepts("a@b.co "));
    assert!(!accepts("a@b.co."));
    assert!(!accepts(" a@b.co"));
    assert!(!accepts("x a@b.co"));
    assert!(!accepts("a@b.co,c@d.ef"));
}

#[test]
fn characters_outside_ascii_are_not_accepted() {
    assert!(!accepts("\u{e9}@b.co"));
    assert!(!accepts("a@\u{e9}.co"));
    assert!(!accepts("a\u{e9}@b.co"));
    assert!(!accepts("a@b.co\u{e9}"));
    assert!(!accepts("a@b.c\u{e9}"));
    // letters that fold to ASCII letters in Unicode are no letters of ASCII
    assert!(!accepts("\u{212a}@b.co"));
    assert!(!accepts("a@b.\u{17f}\u{17f}"));
    assert!(!accepts("\u{ff41}@b.co"));
}

#[test]
fn matcher_works_on_characters() {
    let chars: Vec<char> = "a@b.co".chars().collect();
    assert!(matches_email(&chars));
    let chars: Vec<char> = "A@B.Co".chars().collect();
    assert!(matches_email(&chars));
    let chars: Vec<char> = "a@b".chars().collect();
    assert!(!matches_email(&chars));
    let chars: Vec<char> = "a@b.co ".chars().collect();
    assert!(!matches_email(&chars));
    assert!(!matches_email(&Vec::new()));
}

#[test]
fn rule_agrees_with_its_regular_expression() {
    let pattern = pattern();
    let samples = [
        "", "a", "@", "a@", "@b", "a@b", "a@b.", "a@b.c", "a@b.co", "a@b.com", "a@b.c0",
        "a@b.0c", "A@b.co", "a@B.co", "a@b.Co", "a@b.cO", "A@B.CO", ".a@b.co", "a.@b.co",
        "a..b@c.de", "a+b@c.de", "a_b@c.de", "a-b@c.de", "+@c.de", "_@c.de", "-@c.de",
        "a@b-c.de", "a@b--c.de", "a@b-.cd", "a@b.-cd", "a@-b.cd", "a@b..cd", "a@.b.cd",
        "a@b.cd.", "a@b.cd.e", "a@b.cd.ef", "a@b.c.d.e.fg", "a@b.1.c2.de", "a@1.2.ab",
        "a@b.co rest", "a@b.co@c.de", "a@@b.co", "a@b@c.de", "a b@c.de", " a@b.co", "a@b.co ",
        "a@b .co", "a@b. co", "a@b.abcdefg", "a@b.abcdef", "a@b.ab-cd", "a@b_c.de", "a@b+c.de",
        "john.doe+tag@mail.example.org", "not-an-email", "u@x.com", "\u{e9}@b.co",
        "a@\u{e9}.co", "a@b.co\u{e9}", "a@b.c\u{e9}", "a\n@b.co", "a@b.co\n", "a@b.\nco",
        "0@0.00", "0@0.0a", "0@0.a0", "0@0.aa", "a@b.c.", "a@b.c-", "a@b.c-de", "a@b.c.de",
        "a.b.c@d.e.f.gh", "a@b-c-d.ef", "a@b.cd-ef", "a@b.cd.-ef", "aa@bb", "aa@bb.c",
        "...@b.co", "a...b@c.de", "a@b.co.", "a@b.co-", "a@b.co_", "a@b.co junk!",
        "\u{212a}@b.co", "a@b.\u{17f}\u{17f}", "a@b.cd1", "a@b.cd\r\n", "[a@b.co", "a@b.co]",
        "`@b.co", "{@b.co", "a@b.c`", "a@b.{{", "a@b./a", "a@b.:a", "a@/.co", "a@:.co",
    ];
    for sample in samples {
        assert_eq!(accepts(sample), pattern.is_match(sample), "on {:?}", sample);
    }
}

#[test]
fn rule_agrees_with_its_regular_expression_on_every_short_text() {
    // every text of up to six characters over an alphabet that has one
    // character of each kind the rule tells apart
    let pattern = pattern();
    let alphabet = ['a', '1', '_', '.', '-', '@', 'A'];
    let mut texts: Vec<String> = vec![String::new()];
    let mut from = 0;
    for _ in 0..6 {
        let upto = texts.len();
        for i in from..upto {
            for c in alphabet {
                let mut longer = texts[i].clone();
                longer.push(c);
                texts.push(longer);
            }
        }
        from = upto;
    }
    assert_eq!(texts.len(), 1 + 7 + 49 + 343 + 2401 + 16807 + 117649);
    let mut accepted = 0;
    for text in &texts {
        let expected = pattern.is_match(text);
        assert_eq!(accepts(text), expected, "on {:?}", text);
        if expected {
            accepted += 1;
        }
    }
    assert!(accepted > 0);
}

#[test]
fn rule_agrees_with_its_regular_expression_on_longer_hosts() {
    // an address with every text of up to five characters as what follows
    // the `@`
    let pattern = pattern();
    let alphabet = ['b', '7', '.', '-', 'Z', ' '];
    let mut tails: Vec<String> = vec![String::new()];
    let mut from = 0;
    for _ in 0..5 {
        let upto = tails.len();
        for i in from..upto {
            for c in alphabet {
                let mut longer = tails[i].clone();
                longer.push(c);
                tails.push(longer);
            }
        }
        from = upto;
    }
    let mut accepted = 0;
    for tail in &tails {
        let text = format!("a.b@{}.com", tail);
        let expected = pattern.is_match(&text);
        assert_eq!(accepts(&text), expected, "on {:?}", text);
        if expected {
            accepted += 1;
        }
    }
    assert!(accepted > 0);
}
