use nom::bytes::complete::{tag, take_until1};
use nom::IResult;
use sauce_relay::intent::{author_get, ParseFailure};

fn by_combinators(input: &str) -> IResult<&str, &str> {
    let (input, _) = tag("Looking up ")(input)?;
    let (input, _) = take_until1(" by ")(input)?;
    let (input, _) = tag(" by ")(input)?;
    let (input, author) = take_until1(".")(input)?;
    Ok((input, author))
}

#[test]
fn confirmation_names_its_author() {
    assert_eq!(author_get("Looking up Foo by Bar."), Ok("Bar".to_string()));
    assert_eq!(author_get("Looking up Widget by Smith."), Ok("Smith".to_string()));
}

#[test]
fn author_is_taken_as_written() {
    assert_eq!(author_get("Looking up Foo by  Bar ."), Ok(" Bar ".to_string()));
    assert_eq!(author_get("Looking up Foo by BAR baz."), Ok("BAR baz".to_string()));
}

#[test]
fn author_ends_at_first_full_stop() {
    assert_eq!(author_get("Looking up Widget by J. Smith."), Ok("J".to_string()));
    assert_eq!(author_get("Looking up Foo by Bar. And more."), Ok("Bar".to_string()));
}

#[test]
fn what_follows_the_full_stop_is_ignored() {
    assert_eq!(author_get("Looking up Foo by Bar.trailing"), Ok("Bar".to_string()));
}

#[test]
fn target_ends_at_first_separator() {
    assert_eq!(author_get("Looking up a by b by c."), Ok("b by c".to_string()));
    assert_eq!(author_get("Looking up a by by c."), Ok("by c".to_string()));
}

#[test]
fn full_stop_in_target_does_not_end_the_author() {
    assert_eq!(author_get("Looking up v1.2 by Bar."), Ok("Bar".to_string()));
}

#[test]
fn text_without_lead_names_no_author() {
    assert_eq!(author_get("Foo by Bar."), Err(ParseFailure));
    assert_eq!(author_get("hello"), Err(ParseFailure));
    assert_eq!(author_get(""), Err(ParseFailure));
}

#[test]
fn lead_must_stand_first() {
    assert_eq!(author_get(" Looking up Foo by Bar."), Err(ParseFailure));
    assert_eq!(author_get("x Looking up Foo by Bar."), Err(ParseFailure));
}

#[test]
fn lead_is_matched_by_case_and_with_its_space() {
    assert_eq!(author_get("looking up Foo by Bar."), Err(ParseFailure));
    assert_eq!(author_get("Looking upFoo by Bar."), Err(ParseFailure));
    assert_eq!(author_get("Looking up"), Err(ParseFailure));
}

#[test]
fn text_without_separator_names_no_author() {
    assert_eq!(author_get("Looking up Foo."), Err(ParseFailure));
    assert_eq!(author_get("Looking up Foo by"), Err(ParseFailure));
    assert_eq!(author_get("Looking up Foo byBar."), Err(ParseFailure));
    assert_eq!(author_get("Looking up "), Err(ParseFailure));
}

#[test]
fn text_without_full_stop_names_no_author() {
    assert_eq!(author_get("Looking up Foo by Bar"), Err(ParseFailure));
    assert_eq!(author_get("Looking up Foo by "), Err(ParseFailure));
}

#[test]
fn empty_target_names_no_author() {
    assert_eq!(author_get("Looking up  by Bar."), Err(ParseFailure));
}

#[test]
fn empty_author_names_no_author() {
    assert_eq!(author_get("Looking up Foo by ."), Err(ParseFailure));
    assert_eq!(author_get("Looking up Foo by .Bar."), Err(ParseFailure));
}

#[test]
fn names_beyond_ascii_are_kept() {
    assert_eq!(
        author_get("Looking up \u{65e5}\u{672c}\u{8a9e} by \u{4f5c}\u{8005}."),
        Ok("\u{4f5c}\u{8005}".to_string())
    );
    assert_eq!(author_get("Looking up caf\u{e9} by Zo\u{eb}."), Ok("Zo\u{eb}".to_string()));
    assert_eq!(
        author_get("Looking up \u{1F1FA}\u{1F1F8} by \u{1F1EF}\u{1F1F5}."),
        Ok("\u{1F1EF}\u{1F1F5}".to_string())
    );
}

#[test]
fn agrees_with_parser_combinators() {
    let inputs = [
        "",
        ".",
        " by ",
        "Looking up",
        "Looking up ",
        "Looking up Foo",
        "Looking up Foo by",
        "Looking up Foo by ",
        "Looking up Foo by Bar",
        "Looking up Foo by Bar.",
        "Looking up Foo by Bar..",
        "Looking up Foo by .",
        "Looking up  by Bar.",
        "Looking up  by  by Bar.",
        "Looking up by Bar.",
        "Looking up a by b by c.",
        "Looking up a by by c.",
        "Looking up a.b by c.d.",
        "Looking up Widget by J. Smith.",
        "Looking up Foo  by  Bar.",
        "Looking up Foo by Bar.\nLooking up Baz by Qux.",
        "looking up Foo by Bar.",
        " Looking up Foo by Bar.",
        "Looking up caf\u{e9} by Zo\u{eb}.",
        "Looking up \u{65e5}\u{672c}\u{8a9e} by \u{4f5c}\u{8005}.",
        "Looking up \u{65e5} by \u{4f5c}",
        "Looking up x\u{a0}by y.",
        "Looking up Foo BY Bar.",
        "Looking up Foo by Bar\u{3002}",
    ];
    for input in inputs {
        let expected = match by_combinators(input) {
            Ok((_, author)) => Ok(author.to_string()),
            Err(_) => Err(ParseFailure),
        };
        assert_eq!(author_get(input), expected, "input {:?}", input);
    }
}
