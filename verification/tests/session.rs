use promptis::{Console, Input, Outcome};

fn script(lines: &[&str]) -> Console {
    Console::new(lines.iter().map(|s| s.to_string()).collect())
}

fn strings(items: &[&str]) -> Vec<String> {
    items.iter().map(|s| s.to_string()).collect()
}

#[test]
fn console_hands_out_the_script_line_by_line() {
    let mut console = script(&["a\n", "b\n"]);
    assert_eq!(console.pending(), 2);
    assert_eq!(console.read_line(), Some("a\n".to_string()));
    assert_eq!(console.pending(), 1);
    assert_eq!(console.read_line(), Some("b\n".to_string()));
    assert_eq!(console.pending(), 0);
    assert_eq!(console.read_line(), None);
    assert_eq!(console.read_line(), None);
    assert_eq!(console.pending(), 0);
}

#[test]
fn console_keeps_what_was_written() {
    let mut console = script(&[]);
    assert_eq!(console.shown(), "");
    console.write("one");
    console.write("");
    console.write(" two\n");
    assert_eq!(console.shown(), "one two\n");
}

#[test]
fn read_gives_the_value() {
    let mut input = Input::new();
    input.prompt("Enter a number: ");
    let mut console = script(&["42\n", "43\n"]);
    assert_eq!(input.read::<i32>(&mut console), Outcome::Value(Some(42)));
    assert_eq!(console.shown(), "Enter a number: ");
    assert_eq!(console.pending(), 1);
}

#[test]
fn read_gives_none_once_and_does_not_retry() {
    let mut input = Input::new().err_msg("bad");
    input.prompt("Enter a number: ");
    let mut console = script(&["forty-two\n", "42\n"]);
    assert_eq!(input.read::<i32>(&mut console), Outcome::Value(None));
    assert_eq!(console.shown(), "Enter a number: ");
    assert_eq!(console.pending(), 1);
}

#[test]
fn read_quits_on_the_phrase() {
    let input = Input::new().quit("quit");
    let mut console = script(&["quit\n", "42\n"]);
    assert_eq!(input.read::<i32>(&mut console), Outcome::Quit);
    assert_eq!(console.pending(), 1);
}

#[test]
fn read_starves_on_an_empty_script() {
    let mut input = Input::new();
    input.prompt("? ");
    let mut console = script(&[]);
    assert_eq!(input.read::<i32>(&mut console), Outcome::Starved);
    assert_eq!(console.shown(), "? ");
}

#[test]
fn wait_gives_the_first_value() {
    let mut input = Input::new();
    input.prompt("Enter your name: ");
    let mut console = script(&["Ada\n", "Grace\n"]);
    assert_eq!(input.wait::<String>(&mut console), Outcome::Value("Ada".to_string()));
    assert_eq!(console.shown(), "Enter your name: ");
    assert_eq!(console.pending(), 1);
}

#[test]
fn wait_retries_with_the_message_after_each_failure() {
    let mut input = Input::new().err_msg("That wasn't a number; please try again");
    input.prompt("Enter a number: ");
    let mut console = script(&["a\n", "\n", "1.5\n", "7\n", "8\n"]);
    assert_eq!(input.wait::<i32>(&mut console), Outcome::Value(7));
    assert_eq!(
        console.shown(),
        "Enter a number: That wasn't a number; please try again\n\
         Enter a number: That wasn't a number; please try again\n\
         Enter a number: That wasn't a number; please try again\n\
         Enter a number: "
    );
    assert_eq!(console.pending(), 1);
}

#[test]
fn wait_retries_in_silence_without_a_message() {
    let mut input = Input::new();
    input.prompt("> ");
    let mut console = script(&["a\n", "b\n", "3\n"]);
    assert_eq!(input.wait::<u8>(&mut console), Outcome::Value(3));
    assert_eq!(console.shown(), "> > > ");
}

#[test]
fn wait_quits_on_the_phrase_after_failures() {
    let mut input = Input::new().quit("quit").err_msg("bad");
    input.prompt("> ");
    let mut console = script(&["a\n", "quit\n", "3\n"]);
    assert_eq!(input.wait::<u8>(&mut console), Outcome::Quit);
    assert_eq!(console.shown(), "> bad\n> ");
    assert_eq!(console.pending(), 1);
}

#[test]
fn wait_quits_on_the_first_line() {
    let input = Input::new().quit("quit");
    let mut console = script(&["quit\n"]);
    assert_eq!(input.wait::<String>(&mut console), Outcome::Quit);
    assert_eq!(console.shown(), "");
}

#[test]
fn wait_starves_when_nothing_settles() {
    let mut input = Input::new().err_msg("bad");
    input.prompt("> ");
    let mut console = script(&["a\n", "b\n"]);
    assert_eq!(input.wait::<u8>(&mut console), Outcome::Starved);
    assert_eq!(console.shown(), "> bad\n> bad\n> ");
    assert_eq!(console.pending(), 0);
}

#[test]
fn one_prompter_serves_several_questions() {
    let mut input = Input::new().err_msg("Unexpected input; please retry").quit("quit");
    let mut console = script(&["Ada\n", "x\n", "36\n", "quit\n"]);
    assert_eq!(
        input.prompt("Enter your name: ").wait::<String>(&mut console),
        Outcome::Value("Ada".to_string())
    );
    assert_eq!(input.prompt("Enter your age: ").wait::<u32>(&mut console), Outcome::Value(36));
    assert_eq!(input.prompt("Enter your weight: ").wait::<u32>(&mut console), Outcome::Quit);
    assert_eq!(
        console.shown(),
        "Enter your name: Enter your age: Unexpected input; please retry\n\
         Enter your age: Enter your weight: "
    );
}

#[test]
fn wait_opts_on_1_gives_yes() {
    let input = Input::new();
    let mut console = script(&["1\n"]);
    let got = input.wait_opts(&strings(&["Yes", "No"]), "Your choice: ", &mut console);
    assert_eq!(got, Outcome::Value("Yes".to_string()));
    assert_eq!(console.shown(), "1. Yes\n2. No\nYour choice: ");
}

#[test]
fn wait_opts_on_2_gives_no() {
    let input = Input::new();
    let mut console = script(&["2\n"]);
    let got = input.wait_opts(&strings(&["Yes", "No"]), "Your choice: ", &mut console);
    assert_eq!(got, Outcome::Value("No".to_string()));
}

#[test]
fn wait_opts_on_3_or_0_shows_the_bounds_and_asks_again() {
    let input = Input::new().err_msg("bad");
    let mut console = script(&["3\n", "0\n", "2\n"]);
    let got = input.wait_opts(&strings(&["Yes", "No"]), "Your choice: ", &mut console);
    assert_eq!(got, Outcome::Value("No".to_string()));
    assert_eq!(
        console.shown(),
        "1. Yes\n2. No\nYour choice: \
         Please enter a number within the bounds 1..=2\n\
         1. Yes\n2. No\nYour choice: \
         Please enter a number within the bounds 1..=2\n\
         1. Yes\n2. No\nYour choice: "
    );
}

#[test]
fn wait_opts_on_a_word_shows_the_message_and_asks_again() {
    let input = Input::new().err_msg("Not a number");
    let mut console = script(&["Yes\n", "1\n"]);
    let got = input.wait_opts(&strings(&["Yes", "No"]), "Your choice: ", &mut console);
    assert_eq!(got, Outcome::Value("Yes".to_string()));
    assert_eq!(console.shown(), "1. Yes\n2. No\nYour choice: Not a number\nYour choice: ");
}

#[test]
fn wait_opts_leaves_the_prompter_as_it_was() {
    let mut input = Input::new().quit("quit");
    input.prompt("mine: ");
    let mut console = script(&["2\n", "5\n"]);
    let _ = input.wait_opts(&strings(&["a", "b"]), "theirs: ", &mut console);
    assert_eq!(input.prompt_text(), "mine: ");
    assert_eq!(input.wait::<u8>(&mut console), Outcome::Value(5));
    assert_eq!(console.shown(), "1. a\n2. b\ntheirs: mine: ");
}

#[test]
fn wait_opts_quits_and_starves() {
    let input = Input::new().quit("quit");
    let opts = strings(&["a", "b"]);
    let mut console = script(&["9\n", "quit\n"]);
    assert_eq!(input.wait_opts(&opts, "> ", &mut console), Outcome::Quit);
    let mut empty = script(&["9\n"]);
    assert_eq!(input.wait_opts(&opts, "> ", &mut empty), Outcome::Starved);
}

#[test]
fn confirm_on_y_is_true() {
    let input = Input::new();
    let mut lower = script(&["y\n"]);
    assert_eq!(input.confirm("Continue?", &mut lower), Outcome::Value(true));
    assert_eq!(lower.shown(), "Continue? [y/n] ");
    let mut upper = script(&["Y\n"]);
    assert_eq!(input.confirm("Continue?", &mut upper), Outcome::Value(true));
}

#[test]
fn confirm_on_n_is_false() {
    let input = Input::new();
    let mut lower = script(&["n\n"]);
    assert_eq!(input.confirm("Continue?", &mut lower), Outcome::Value(false));
    let mut upper = script(&["N\n"]);
    assert_eq!(input.confirm("Continue?", &mut upper), Outcome::Value(false));
}

#[test]
fn confirm_on_maybe_asks_again_without_the_message() {
    let input = Input::new().err_msg("bad");
    let mut console = script(&["maybe\n", "x\n", "y\n"]);
    assert_eq!(input.confirm("Continue?", &mut console), Outcome::Value(true));
    assert_eq!(console.shown(), "Continue? [y/n] Continue? [y/n] Continue? [y/n] ");
}

#[test]
fn confirm_leaves_the_prompter_as_it_was() {
    let mut input = Input::new();
    input.prompt("mine: ");
    let mut console = script(&["n\n"]);
    let _ = input.confirm("Erase everything?", &mut console);
    assert_eq!(input.prompt_text(), "mine: ");
}

#[test]
fn confirm_quits_and_starves() {
    let input = Input::new().quit("stop");
    let mut console = script(&["?\n", "stop\n", "y\n"]);
    assert_eq!(input.confirm("Go on?", &mut console), Outcome::Quit);
    assert_eq!(console.pending(), 1);
    let mut empty = script(&[]);
    assert_eq!(input.confirm("Go on?", &mut empty), Outcome::Starved);
    assert_eq!(empty.shown(), "Go on? [y/n] ");
}
