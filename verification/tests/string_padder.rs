use twitch_chat::string_padder::StringPadder;

#[test]
fn no_padding() {
    let mut sp = StringPadder::new();
    let value = "foobar".to_string();
    let value = sp.add_pad(value.as_str());
    assert_eq!("foobar", value);
}

#[test]
fn should_pad_by_one() {
    let mut sp = StringPadder::new();
    let value = "foobar1";
    let value = sp.add_pad(value);
    assert_eq!("foobar1", value);

    let value = "foobar";
    let value = sp.add_pad(value);
    assert_eq!("foobar ", value);
}

#[test]
fn should_reset() {
    let mut sp = StringPadder::new();
    let value = "foobar123";
    let value = sp.add_pad(value);
    assert_eq!("foobar123", value);

    let value = "foobar";
    let value = sp.add_pad(value);
    assert_eq!("foobar   ", value);

    sp.reset();

    let value = "foobar";
    let value = sp.add_pad(value);
    assert_eq!("foobar", value);
}
