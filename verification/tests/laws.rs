use promptis::{Console, Input, Outcome, Reply, Step};

fn script(lines: &[&str]) -> Console {
    Console::new(lines.iter().map(|s| s.to_string()).collect())
}

fn strings(items: &[&str]) -> Vec<String> {
    items.iter().map(|s| s.to_string()).collect()
}

#[test]
fn the_quit_phrase_ends_every_kind_of_question() {
    let mut input = Input::new().quit("exit").err_msg("bad");
    input.prompt("whatever: ");
    let opts = strings(&["exit", "stay"]);
    for line in ["exit", "exit\n", "  exit\t\r\n"] {
        assert_eq!(input.get_data::<i32>(line), Reply::Quit);
        assert_eq!(input.get_data::<String>(line), Reply::Quit);
        assert_eq!(input.get_data::<char>(line), Reply::Quit);
        assert_eq!(input.wait_step::<u64>(line), Step::Quit);
        assert_eq!(input.confirm_step("Sure?", line), Step::Quit);
        assert_eq!(input.wait_opts_step(&opts, "> ", line), Step::Quit);
        assert_eq!(input.read::<i32>(&mut script(&[line])), Outcome::Quit);
        assert_eq!(input.wait::<String>(&mut script(&[line])), Outcome::Quit);
        assert_eq!(input.confirm("Sure?", &mut script(&[line])), Outcome::Quit);
        assert_eq!(input.wait_opts(&opts, "> ", &mut script(&[line])), Outcome::Quit);
    }
}

#[test]
fn a_valid_line_is_read_by_read_and_by_wait_alike() {
    let input = Input::new();
    assert_eq!(input.read::<i64>(&mut script(&["-5\n"])), Outcome::Value(Some(-5)));
    assert_eq!(input.wait::<i64>(&mut script(&["-5\n"])), Outcome::Value(-5));
    assert_eq!(input.read::<char>(&mut script(&["z\n"])), Outcome::Value(Some('z')));
    assert_eq!(input.wait::<char>(&mut script(&["z\n"])), Outcome::Value('z'));
    assert_eq!(
        input.read::<String>(&mut script(&["any text\n"])),
        Outcome::Value(Some("any text".to_string()))
    );
    assert_eq!(
        input.wait::<String>(&mut script(&["any text\n"])),
        Outcome::Value("any text".to_string())
    );
}

#[test]
fn an_unset_prompt_is_an_empty_prompt() {
    let unset = Input::new();
    let mut empty = Input::new();
    empty.prompt("");
    let mut a = script(&["x\n", "1\n"]);
    let mut b = script(&["x\n", "1\n"]);
    assert_eq!(unset.read::<i32>(&mut a), empty.read::<i32>(&mut b));
    assert_eq!(a.shown(), b.shown());
    assert_eq!(a.shown(), "");
    assert_eq!(unset.wait::<i32>(&mut a), empty.wait::<i32>(&mut b));
    assert_eq!(a.shown(), b.shown());
    assert_eq!(a.pending(), b.pending());
}

#[test]
fn the_error_message_makes_no_difference_to_read() {
    let mut plain = Input::new().quit("q");
    plain.prompt("> ");
    let mut loud = Input::new().quit("q").err_msg("WRONG");
    loud.prompt("> ");
    for line in ["12\n", "twelve\n", "q\n", "\n"] {
        let mut a = script(&[line]);
        let mut b = script(&[line]);
        assert_eq!(plain.read::<i32>(&mut a), loud.read::<i32>(&mut b));
        assert_eq!(a.shown(), "> ");
        assert_eq!(b.shown(), "> ");
    }
}

#[test]
fn the_error_message_makes_no_difference_to_confirm() {
    let plain = Input::new();
    let loud = Input::new().err_msg("WRONG");
    let mut a = script(&["perhaps\n", "\n", "n\n"]);
    let mut b = script(&["perhaps\n", "\n", "n\n"]);
    assert_eq!(plain.confirm("Really?", &mut a), loud.confirm("Really?", &mut b));
    assert_eq!(a.shown(), b.shown());
}
