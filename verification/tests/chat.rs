use mcproto_rs::types::{Chat, ColorCode, Formatter};

fn plain(text: &str) -> Chat {
    Chat {
        text: String::from(text),
        bold: None,
        italic: None,
        underlined: None,
        strikethrough: None,
        obfuscated: None,
        color: None,
        extra: None,
    }
}

#[test]
fn color_codes() {
    assert_eq!(ColorCode::from_code(&'0'), Some(ColorCode::Black));
    assert_eq!(ColorCode::from_code(&'a'), Some(ColorCode::Green));
    assert_eq!(ColorCode::from_code(&'f'), Some(ColorCode::White));
    assert_eq!(ColorCode::from_code(&'A'), None);
    assert_eq!(ColorCode::from_code(&'g'), None);
    assert_eq!(ColorCode::Gold.to_code(), '6');
    assert_eq!(ColorCode::LightPurple.to_code(), 'd');
    assert_eq!(ColorCode::from_name("red"), Some(ColorCode::Red));
    assert_eq!(ColorCode::from_name("Dark_Aqua"), Some(ColorCode::DarkAqua));
    assert_eq!(ColorCode::from_name("LIGHT_PURPLE"), Some(ColorCode::LightPurple));
    assert_eq!(ColorCode::from_name("pink"), None);
    assert_eq!(ColorCode::DarkGray.name(), "dark_gray");
    for code in "0123456789abcdef".chars() {
        let color = ColorCode::from_code(&code).expect("is a colour");
        assert_eq!(color.to_code(), code);
        assert_eq!(ColorCode::from_name(color.name()), Some(color));
    }
}

#[test]
fn formatters() {
    assert_eq!(Formatter::from_code(&'k'), Some(Formatter::Obfuscated));
    assert_eq!(Formatter::from_code(&'L'), Some(Formatter::Bold));
    assert_eq!(Formatter::from_code(&'r'), Some(Formatter::Reset));
    assert_eq!(Formatter::from_code(&'c'), Some(Formatter::Color(ColorCode::Red)));
    assert_eq!(Formatter::from_code(&'C'), None);
    assert_eq!(Formatter::from_code(&'z'), None);
    assert_eq!(Formatter::Underline.code(), 'n');
    assert_eq!(Formatter::Color(ColorCode::Blue).code(), '9');
    assert_eq!(Formatter::from_name("BOLD"), Some(Formatter::Bold));
    assert_eq!(Formatter::from_name("Yellow"), Some(Formatter::Color(ColorCode::Yellow)));
    assert_eq!(Formatter::from_name("loud"), None);
    assert_eq!(Formatter::Strikethrough.name(), "strikethrough");
    assert_eq!(Formatter::Color(ColorCode::Aqua).name(), "aqua");
    assert_eq!(Formatter::Italic.to_string(), "\u{a7}o");
    assert_eq!(Formatter::Color(ColorCode::White).to_string(), "\u{a7}f");
}

#[test]
fn traditional_text() {
    assert_eq!(plain("hello").to_traditional(), "hello");
    let mut loud = plain("loud");
    loud.bold = Some(true);
    loud.italic = Some(false);
    loud.obfuscated = Some(true);
    loud.color = Some(String::from("RED"));
    assert_eq!(loud.to_traditional(), "\u{a7}l\u{a7}k\u{a7}cloud");
    let mut child = plain("child");
    child.bold = Some(true);
    child.underlined = Some(true);
    let mut grandchild = plain("!");
    grandchild.color = Some(String::from("no such colour"));
    child.extra = Some(vec![grandchild]);
    let mut other = plain("other");
    other.color = Some(String::from("gold"));
    loud.extra = Some(vec![child, other]);
    assert_eq!(
        loud.to_traditional(),
        "\u{a7}l\u{a7}k\u{a7}cloud\u{a7}l\u{a7}k\u{a7}n\u{a7}cchild\u{a7}l\u{a7}k\u{a7}n\u{a7}c!\u{a7}l\u{a7}k\u{a7}6other"
    );
    assert_eq!(loud.to_string(), "loudchild!other");
    assert_eq!(
        loud.to_traditional_parts(&vec![Formatter::Italic, Formatter::Bold], Some(ColorCode::Blue)),
        "\u{a7}o\u{a7}l\u{a7}k\u{a7}cloud\u{a7}o\u{a7}l\u{a7}k\u{a7}n\u{a7}cchild\u{a7}o\u{a7}l\u{a7}k\u{a7}n\u{a7}c!\u{a7}o\u{a7}l\u{a7}k\u{a7}6other"
    );
    let mut styles = vec![Formatter::Bold];
    Chat::update_formatter(&mut styles, Formatter::Bold, &Some(true));
    Chat::update_formatter(&mut styles, Formatter::Italic, &None);
    Chat::update_formatter(&mut styles, Formatter::Underline, &Some(false));
    Chat::update_formatter(&mut styles, Formatter::Reset, &Some(true));
    assert_eq!(styles, vec![Formatter::Bold, Formatter::Reset]);
}

#[test]
fn copies_of_rich_text() {
    let mut parent = plain("a");
    parent.bold = Some(true);
    parent.color = Some(String::from("red"));
    parent.extra = Some(vec![plain("b"), plain("c")]);
    let copy = parent.clone();
    assert_eq!(copy, parent);
    assert_eq!(copy.to_traditional(), parent.to_traditional());
}
