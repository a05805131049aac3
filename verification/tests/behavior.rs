use card_lookup::cards::{card_desc, card_details, primary_image_url, search_outcome, Card,
    CardImage, Fail};
use card_lookup::machine::{action_of, step, Action, LoopEvent, LoopState};
use card_lookup::render::{candidate_line, colored, format_i32, format_u64, labeled_line,
    resized_size, BoundingBox, Color};
use card_lookup::text::{build_search_url, selection_accepted, selection_index, trim,
    wants_continue};

fn card(name: Option<&str>, atk: Option<i32>, def: Option<i32>, url: Option<&str>,
    desc: Option<&str>) -> Card {
    Card {
        name: name.map(|s| s.as_bytes().to_vec()),
        id: None,
        atk,
        def,
        archetype: None,
        card_images: match url {
            Some(u) => vec![CardImage { image_url: Some(u.as_bytes().to_vec()) }],
            None => Vec::new(),
        },
        desc: desc.map(|s| s.as_bytes().to_vec()),
    }
}

#[test]
fn trim_strips_both_ends() {
    assert_eq!(trim(b"  Dark Magician \n"), b"Dark Magician".to_vec());
    assert_eq!(trim(b"\r\n"), Vec::<u8>::new());
    assert_eq!(trim(b"x"), b"x".to_vec());
}

#[test]
fn the_url_carries_the_trimmed_query() {
    assert_eq!(
        build_search_url(b"http://cards.example/find?fname=", b" Dark Magician \n"),
        b"http://cards.example/find?fname=Dark Magician".to_vec()
    );
}

#[test]
fn selection_in_range_is_kept() {
    assert_eq!(selection_index(b"1\n", 3), 1);
    assert_eq!(selection_index(b"0", 3), 0);
    assert_eq!(selection_index(b"  2  ", 3), 2);
    assert_eq!(selection_index(b"+1", 3), 1);
    assert!(selection_accepted(b"2", 3));
}

#[test]
fn selection_out_of_range_or_unparsable_falls_back_to_zero() {
    assert_eq!(selection_index(b"3", 3), 0);
    assert_eq!(selection_index(b"17", 3), 0);
    assert_eq!(selection_index(b"-1", 3), 0);
    assert_eq!(selection_index(b"abc", 3), 0);
    assert_eq!(selection_index(b"", 3), 0);
    assert_eq!(selection_index(b"1x", 3), 0);
    assert_eq!(selection_index(b"99999999999999999999999999", 3), 0);
    assert!(!selection_accepted(b"3", 3));
    assert!(!selection_accepted(b"abc", 3));
}

#[test]
fn continue_answer_is_the_bare_letter_only() {
    assert!(wants_continue(b"y\n"));
    assert!(wants_continue(b" Y "));
    assert!(!wants_continue(b"yes"));
    assert!(!wants_continue(b"n"));
    assert!(!wants_continue(b""));
    assert!(!wants_continue(b"yy"));
}

#[test]
fn wide_source_is_width_constrained() {
    let b = BoundingBox::default();
    assert_eq!(resized_size(1000, 500, &b), (20, 10));
}

#[test]
fn tall_source_is_height_constrained_and_rounds_down() {
    let b = BoundingBox::default();
    assert_eq!(resized_size(500, 1000, &b), (7, 15));
}

#[test]
fn without_aspect_preservation_the_box_is_filled() {
    let b = BoundingBox { max_width: 20, max_height: 15, preserve_aspect: false };
    assert_eq!(resized_size(1000, 500, &b), (20, 15));
}

#[test]
fn square_fit_is_exact() {
    let b = BoundingBox { max_width: 10, max_height: 10, preserve_aspect: true };
    assert_eq!(resized_size(300, 300, &b), (10, 10));
}

#[test]
fn decimal_formatting_is_exact() {
    assert_eq!(format_u64(0), b"0".to_vec());
    assert_eq!(format_u64(90210), b"90210".to_vec());
    assert_eq!(format_i32(-2500), b"-2500".to_vec());
    assert_eq!(format_i32(3000), b"3000".to_vec());
    assert_eq!(format_i32(i32::MIN), b"-2147483648".to_vec());
    assert_eq!(format_u64(u64::MAX), b"18446744073709551615".to_vec());
}

#[test]
fn colored_runs_are_wrapped_and_reset() {
    assert_eq!(colored(&Color::Green, b"hi"), b"\x1b[32mhi\x1b[0m".to_vec());
    assert_eq!(
        candidate_line(0, b"Dark Magician"),
        b"\x1b[31m[0]\x1b[0m \x1b[34mDark Magician\x1b[0m".to_vec()
    );
    assert_eq!(
        labeled_line(b"Name:", b"Kuriboh"),
        b"\x1b[31mName:\x1b[0m \x1b[94mKuriboh\x1b[0m".to_vec()
    );
}

#[test]
fn transport_failure_surfaces_as_network_fail() {
    assert_eq!(search_outcome(None).unwrap_err(), Fail::NetworkFail);
}

#[test]
fn bad_status_and_zero_cards_are_the_empty_result() {
    let one = vec![card(Some("A"), None, None, None, None)];
    assert_eq!(search_outcome(Some((404, one))).unwrap_err(), Fail::EmptyResult);
    assert_eq!(search_outcome(Some((200, Vec::new()))).unwrap_err(), Fail::EmptyResult);
}

#[test]
fn search_keeps_the_server_order() {
    let cards = vec![
        card(Some("Dark Magician"), Some(2500), Some(2100), Some("http://img/0.jpg"), Some("a")),
        card(Some("Dark Magician Girl"), Some(2000), Some(1700), Some("http://img/1.jpg"),
            Some("b")),
        card(Some("Dark Magician Knight"), Some(2500), Some(2100), Some("http://img/2.jpg"),
            Some("c")),
    ];
    let r = search_outcome(Some((200, cards))).unwrap();
    assert_eq!(r.cards.len(), 3);
    assert_eq!(r.cards[0].name.as_deref(), Some(b"Dark Magician".as_slice()));
    assert_eq!(r.cards[1].name.as_deref(), Some(b"Dark Magician Girl".as_slice()));
    assert_eq!(r.cards[2].name.as_deref(), Some(b"Dark Magician Knight".as_slice()));
}

#[test]
fn missing_display_fields_are_reported_in_order() {
    let c = card(None, Some(1), Some(2), None, None);
    assert_eq!(card_details(&c).unwrap_err(), Fail::MissingName);
    let c = card(Some("A"), None, Some(2), None, None);
    assert_eq!(card_details(&c).unwrap_err(), Fail::MissingAtk);
    let c = card(Some("A"), Some(1), None, None, None);
    assert_eq!(card_details(&c).unwrap_err(), Fail::MissingDef);
    let c = card(Some("A"), Some(1), Some(2), None, None);
    let d = card_details(&c).unwrap();
    assert_eq!(d.name, b"A".to_vec());
    assert_eq!((d.atk, d.def), (1, 2));
}

#[test]
fn artwork_and_description_requirements() {
    let c = card(Some("A"), Some(1), Some(2), None, None);
    assert_eq!(primary_image_url(&c).unwrap_err(), Fail::MissingImageUrl);
    assert_eq!(card_desc(&c).unwrap_err(), Fail::MissingDesc);
    let c = card(Some("A"), Some(1), Some(2), Some("http://img/a.jpg"), Some("text"));
    assert_eq!(primary_image_url(&c).unwrap(), b"http://img/a.jpg".to_vec());
    assert_eq!(card_desc(&c).unwrap(), b"text".to_vec());
    let mut c = card(Some("A"), Some(1), Some(2), None, None);
    c.card_images = vec![CardImage { image_url: None }];
    assert_eq!(primary_image_url(&c).unwrap_err(), Fail::MissingImageUrl);
}

#[test]
fn termination_is_decided_by_the_continue_answer() {
    let s = LoopState::AwaitingContinue;
    assert_eq!(step(&s, &LoopEvent::ContinueAnswered { input: b"n".to_vec() }),
        LoopState::Terminated);
    assert_eq!(step(&s, &LoopEvent::ContinueAnswered { input: b"yes".to_vec() }),
        LoopState::Terminated);
    assert_eq!(step(&s, &LoopEvent::ContinueAnswered { input: b"y\n".to_vec() }),
        LoopState::AwaitingQuery);
    assert_eq!(step(&s, &LoopEvent::ContinueAnswered { input: b"Y".to_vec() }),
        LoopState::AwaitingQuery);
}

#[test]
fn empty_search_returns_to_the_query_prompt_without_prompts() {
    let s = step(&LoopState::Searching, &LoopEvent::SearchCompleted { count: 0 });
    assert_eq!(s, LoopState::NoResults);
    assert_ne!(action_of(&s), Action::PromptSelection);
    assert_ne!(action_of(&s), Action::PromptContinue);
    assert_eq!(step(&s, &LoopEvent::Proceed), LoopState::AwaitingQuery);
    assert_eq!(action_of(&LoopState::AwaitingQuery), Action::PromptQuery);
}

#[test]
fn full_cycle_for_one_chosen_card() {
    let mut s = LoopState::AwaitingQuery;
    assert_eq!(action_of(&s), Action::PromptQuery);
    s = step(&s, &LoopEvent::QuerySubmitted);
    assert_eq!(action_of(&s), Action::RunSearch);
    let cards = vec![
        card(Some("Dark Magician"), Some(2500), Some(2100), Some("http://img/0.jpg"), Some("a")),
        card(Some("Dark Magician Girl"), Some(2000), Some(1700), Some("http://img/1.jpg"),
            Some("b")),
        card(Some("Dark Magician Knight"), Some(2500), Some(2100), Some("http://img/2.jpg"),
            Some("c")),
    ];
    let found = search_outcome(Some((200, cards))).unwrap();
    s = step(&s, &LoopEvent::SearchCompleted { count: found.cards.len() });
    assert_eq!(s, LoopState::HasResults { count: 3 });
    s = step(&s, &LoopEvent::Proceed);
    assert_eq!(action_of(&s), Action::PromptSelection);
    s = step(&s, &LoopEvent::SelectionSubmitted { input: b"1\n".to_vec() });
    assert_eq!(s, LoopState::Rendering { count: 3, index: 1 });
    assert_eq!(action_of(&s), Action::RenderCard { index: 1 });
    let chosen = &found.cards[1];
    let d = card_details(chosen).unwrap();
    assert_eq!(d.name, b"Dark Magician Girl".to_vec());
    assert_eq!(primary_image_url(chosen).unwrap(), b"http://img/1.jpg".to_vec());
    s = step(&s, &LoopEvent::RenderFinished);
    assert_eq!(action_of(&s), Action::PromptContinue);
    s = step(&s, &LoopEvent::ContinueAnswered { input: b"n".to_vec() });
    assert_eq!(s, LoopState::Terminated);
    assert_eq!(action_of(&s), Action::Exit);
}

#[test]
fn mismatched_events_leave_the_state_alone() {
    let s = LoopState::AwaitingQuery;
    assert_eq!(step(&s, &LoopEvent::RenderFinished), s);
    let s = LoopState::Terminated;
    assert_eq!(step(&s, &LoopEvent::QuerySubmitted), s);
}
