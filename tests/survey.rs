use readme_gen::document::Readme;
use readme_gen::survey::{Answer, Prompt, Step, Survey};

fn input_of(p: Prompt) -> (String, String) {
    match p {
        Prompt::Input { prompt, default } => (prompt, default),
        _ => panic!("expected a line of text"),
    }
}

fn confirm_of(p: Prompt) -> String {
    match p {
        Prompt::Confirm { prompt } => prompt,
        _ => panic!("expected a question"),
    }
}

fn reply(s: &mut Survey, a: Answer) {
    assert!(s.accepts(&a));
    s.answer(a);
}

#[test]
fn full_interview() {
    let mut s = Survey::new(Readme::new("dir".to_string()));
    assert_eq!(
        input_of(s.prompt()),
        ("Project's name".to_string(), "dir".to_string())
    );
    reply(&mut s, Answer::Text("proj".to_string()));

    assert_eq!(confirm_of(s.prompt()), "Would you like to add a description?");
    reply(&mut s, Answer::Confirmed(true));
    assert!(matches!(s.prompt(), Prompt::Edit));
    reply(&mut s, Answer::Edited(Some("Hello world.".to_string())));

    assert_eq!(confirm_of(s.prompt()), "Would you like to add an image?");
    reply(&mut s, Answer::Confirmed(true));
    assert_eq!(
        input_of(s.prompt()),
        ("Image's alt text".to_string(), "screenshot".to_string())
    );
    reply(&mut s, Answer::Text("shot".to_string()));
    assert_eq!(
        input_of(s.prompt()),
        ("Image's URL".to_string(), String::new())
    );
    reply(&mut s, Answer::Text("http://x/y.png".to_string()));

    match s.prompt() {
        Prompt::Select { prompt, items } => {
            assert_eq!(prompt, "Choose the commands you want to add");
            assert_eq!(
                items,
                vec![
                    "Command to install the dependencies".to_string(),
                    "Command to build the project".to_string(),
                    "Command to run the units tests".to_string(),
                    "Command to install the project".to_string(),
                ]
            );
        }
        _ => panic!("expected a choice"),
    }
    reply(&mut s, Answer::Selected(vec![1, 3]));
    assert_eq!(
        input_of(s.prompt()),
        ("Command to build the project".to_string(), String::new())
    );
    reply(&mut s, Answer::Text("make".to_string()));
    assert_eq!(
        input_of(s.prompt()),
        ("Command to install the project".to_string(), String::new())
    );
    reply(&mut s, Answer::Text("make install".to_string()));

    assert_eq!(confirm_of(s.prompt()), "Would you like to add a usage example?");
    reply(&mut s, Answer::Confirmed(true));
    assert!(matches!(s.prompt(), Prompt::Edit));
    reply(&mut s, Answer::Edited(Some("run it".to_string())));

    assert!(s.is_done());
    assert!(matches!(s.prompt(), Prompt::Finished));
    let d = s.into_readme();
    assert_eq!(
        d.render(),
        "# proj\nHello world.\n\n![shot](http://x/y.png)\n\n# Development\n\n## Building\n```\nmake\n```\n\n## Installing\n```\nmake install\n```\n\n# Usage\n```\nrun it\n```\n"
    );
}

#[test]
fn declining_every_section() {
    let mut s = Survey::new(Readme::new("dir".to_string()));
    reply(&mut s, Answer::Text("dir".to_string()));
    reply(&mut s, Answer::Confirmed(false));
    assert_eq!(s.step, Step::AskImage);
    reply(&mut s, Answer::Confirmed(false));
    assert_eq!(s.step, Step::ChooseCommands);
    reply(&mut s, Answer::Selected(Vec::new()));
    assert_eq!(s.step, Step::AskUsage);
    reply(&mut s, Answer::Confirmed(false));
    assert!(s.is_done());
    assert_eq!(s.into_readme().render(), "# dir\n");
}

#[test]
fn editor_without_content_keeps_the_field() {
    let mut d = Readme::new("p".to_string());
    d.description = "old".to_string();
    let mut s = Survey::new(d);
    reply(&mut s, Answer::Text("p".to_string()));
    reply(&mut s, Answer::Confirmed(true));
    reply(&mut s, Answer::Edited(None));
    assert_eq!(s.step, Step::AskImage);
    assert_eq!(s.readme.description, "old");
}

#[test]
fn command_prompt_offers_the_current_value() {
    let mut d = Readme::new("p".to_string());
    d.commands.test = "cargo test".to_string();
    let mut s = Survey::new(d);
    reply(&mut s, Answer::Text("p".to_string()));
    reply(&mut s, Answer::Confirmed(false));
    reply(&mut s, Answer::Confirmed(false));
    reply(&mut s, Answer::Selected(vec![2]));
    assert_eq!(
        input_of(s.prompt()),
        (
            "Command to run the units tests".to_string(),
            "cargo test".to_string()
        )
    );
}

#[test]
fn unknown_selection_is_refused() {
    let mut s = Survey::new(Readme::new("p".to_string()));
    reply(&mut s, Answer::Text("p".to_string()));
    reply(&mut s, Answer::Confirmed(false));
    reply(&mut s, Answer::Confirmed(false));
    assert!(!s.accepts(&Answer::Selected(vec![0, 4])));
    assert!(s.accepts(&Answer::Selected(vec![0, 3])));
}

#[test]
fn answer_of_the_wrong_kind_is_refused() {
    let s = Survey::new(Readme::new("p".to_string()));
    assert!(!s.accepts(&Answer::Confirmed(true)));
    assert!(!s.accepts(&Answer::Edited(None)));
    assert!(!s.accepts(&Answer::Selected(vec![0])));
    assert!(s.accepts(&Answer::Text(String::new())));
}
