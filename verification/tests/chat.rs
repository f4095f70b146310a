use gustavio::chat::{
    display, forwards_to, host_shows, read_input, read_mode, user_color, Input, Mode, Msg, Relay,
    Rgb, Shown,
};

#[test]
fn constructors_set_kind_user_and_content() {
    let j = Msg::join("ana");
    assert_eq!((j.kind.as_str(), j.user.as_str(), j.content.as_str()), ("join", "ana", ""));
    let l = Msg::leave("ana");
    assert_eq!((l.kind.as_str(), l.user.as_str(), l.content.as_str()), ("leave", "ana", ""));
    let c = Msg::chat("ana", "oi, tudo bem?");
    assert_eq!(
        (c.kind.as_str(), c.user.as_str(), c.content.as_str()),
        ("msg", "ana", "oi, tudo bem?")
    );
    let copy = c.clone();
    assert_eq!(copy.content, "oi, tudo bem?");
    let empty = Msg::chat("", "");
    assert_eq!((empty.kind.as_str(), empty.user.as_str(), empty.content.as_str()), ("msg", "", ""));
}

#[test]
fn colour_is_picked_by_the_sum_of_the_bytes() {
    assert_eq!(user_color(""), Rgb { r: 255, g: 107, b: 107 });
    assert_eq!(user_color("a"), Rgb { r: 78, g: 205, b: 196 });
    assert_eq!(user_color("b"), Rgb { r: 255, g: 217, b: 61 });
    assert_eq!(user_color("c"), Rgb { r: 107, g: 137, b: 255 });
    assert_eq!(user_color("d"), Rgb { r: 255, g: 107, b: 255 });
    assert_eq!(user_color("e"), Rgb { r: 0, g: 255, b: 136 });
    assert_eq!(user_color("f"), Rgb { r: 255, g: 159, b: 67 });
    assert_eq!(user_color("g"), Rgb { r: 162, g: 155, b: 254 });
    assert_eq!(user_color("h"), Rgb { r: 255, g: 107, b: 107 });
    assert_eq!(user_color("ana"), Rgb { r: 255, g: 107, b: 107 });
    assert_eq!(user_color("naa"), user_color("ana"));
    assert_eq!(user_color("é"), Rgb { r: 255, g: 107, b: 255 });
}

#[test]
fn colour_of_a_long_name() {
    let long = "z".repeat(100_000);
    assert_eq!(user_color(&long), Rgb { r: 255, g: 107, b: 107 });
}

#[test]
fn display_goes_by_the_kind() {
    assert_eq!(display(&Msg::join("ana")), Shown::Joined);
    assert_eq!(display(&Msg::leave("ana")), Shown::Left);
    assert_eq!(display(&Msg::chat("ana", "oi")), Shown::Said);
    let other = Msg { kind: "ping".to_string(), user: "ana".to_string(), content: String::new() };
    assert_eq!(display(&other), Shown::Nothing);
    let upper = Msg { kind: "JOIN".to_string(), user: "ana".to_string(), content: String::new() };
    assert_eq!(display(&upper), Shown::Nothing);
    let none = Msg { kind: String::new(), user: String::new(), content: String::new() };
    assert_eq!(display(&none), Shown::Nothing);
}

fn said(input: Input) -> String {
    match input {
        Input::Say(text) => text,
        other => panic!("unexpected {:?}", other),
    }
}

#[test]
fn typed_line_is_trimmed_and_read() {
    assert!(matches!(read_input(""), Input::Blank));
    assert!(matches!(read_input("   \t \r\n"), Input::Blank));
    assert!(matches!(read_input("\u{a0}\u{2003}\u{3000}"), Input::Blank));
    assert!(matches!(read_input("/sair"), Input::Quit));
    assert!(matches!(read_input("  /quit\n"), Input::Quit));
    assert_eq!(said(read_input("  oi gente \n")), "oi gente");
    assert_eq!(said(read_input("/sair agora")), "/sair agora");
    assert_eq!(said(read_input("/SAIR")), "/SAIR");
    assert_eq!(said(read_input("\u{200b}")), "\u{200b}");
    assert_eq!(said(read_input(" a \u{85} b \u{2028}")), "a \u{85} b");
}

#[test]
fn mode_is_one_or_two() {
    assert_eq!(read_mode("1"), Mode::Host);
    assert_eq!(read_mode("2"), Mode::Guest);
    assert_eq!(read_mode("3"), Mode::Invalid);
    assert_eq!(read_mode(""), Mode::Invalid);
    assert_eq!(read_mode("11"), Mode::Invalid);
    assert_eq!(read_mode(" 1"), Mode::Invalid);
}

#[test]
fn relay_skips_the_sender() {
    assert!(forwards_to("10.0.0.2:5000", "10.0.0.3:5000"));
    assert!(!forwards_to("10.0.0.2:5000", "10.0.0.2:5000"));
    assert!(forwards_to("HOST", "10.0.0.2:5000"));
    assert!(!host_shows("HOST"));
    assert!(host_shows("10.0.0.2:5000"));
    assert!(host_shows("host"));
}

#[test]
fn relay_remembers_who_entered() {
    let mut r = Relay::new();
    assert_eq!(r.username, "");
    assert!(r.disconnect().is_none());
    r.relay(None);
    assert_eq!(r.username, "");
    r.relay(Some(&Msg::chat("ana", "oi")));
    assert_eq!(r.username, "");
    assert!(r.disconnect().is_none());
    r.relay(Some(&Msg::join("ana")));
    assert_eq!(r.username, "ana");
    r.relay(Some(&Msg::chat("bia", "oi")));
    r.relay(Some(&Msg::leave("bia")));
    r.relay(None);
    assert_eq!(r.username, "ana");
    let farewell = r.disconnect().unwrap();
    assert_eq!(
        (farewell.kind.as_str(), farewell.user.as_str(), farewell.content.as_str()),
        ("leave", "ana", "")
    );
    r.relay(Some(&Msg::join("bia")));
    assert_eq!(r.disconnect().unwrap().user, "bia");
    r.relay(Some(&Msg::join("")));
    assert!(r.disconnect().is_none());
}
