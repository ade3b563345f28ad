use donut_tell_me::component::{Base, DonutBundle, Glazing, Sprinkles};
use donut_tell_me::emo::Emo;
use donut_tell_me::system::{
    change_cooking_donut, change_cooking_donut_buttons, cook_another_donut, fill_line, leaving,
    look_of_face, next_customer, offer_cooked_donut, play_again_button, random_look, setup_game,
    winning, CookingButtons, CookingKeys, Customer, Serving, Session, EMOTION_MILLIS,
    LEAVING_MILLIS, LINE_DEPTH, REGULARS_TO_WIN,
};
use donut_tell_me::taste::Taste;
use donut_tell_me::AppState;

fn no_keys() -> CookingKeys {
    CookingKeys {
        right: false,
        left: false,
        w: false,
        q: false,
        s: false,
        a: false,
        x: false,
        z: false,
    }
}

fn no_buttons() -> CookingButtons {
    CookingButtons {
        base_left: false,
        base_right: false,
        glazing_left: false,
        glazing_right: false,
        sprinkles_left: false,
        sprinkles_right: false,
    }
}

fn fan(id: u64) -> Customer {
    Customer { id, taste: Taste::all(), regular: false }
}

fn critic(id: u64) -> Customer {
    Customer { id, taste: Taste::default(), regular: false }
}

fn ids(session: &Session) -> Vec<u64> {
    session.customers().iter().map(|customer| customer.id).collect()
}

#[test]
fn a_new_session_is_empty() {
    let session = setup_game();
    assert_eq!(session.len(), 0);
    assert_eq!(session.serving(), Serving::Nobody);
    assert!(session.current().is_none());
    assert!(session.wants_customer());
    assert_eq!(session.regulars(), 0);
    assert!(session.customers().is_empty());
    assert_eq!(Session::new().len(), 0);
}

#[test]
fn the_line_fills_by_one_customer_per_tick_up_to_its_depth() {
    let mut session = Session::new();
    for tick in 0..LINE_DEPTH {
        assert_eq!(session.len(), tick);
        assert!(session.wants_customer());
        let arrival = fill_line(&mut session, 100 + tick as u64).unwrap();
        assert_eq!(arrival.id, 100 + tick as u64);
        assert!(!arrival.regular);
        assert_eq!(session.len(), tick + 1);
    }
    assert_eq!(ids(&session), vec![100, 101, 102, 103]);
    assert!(!session.wants_customer());
    assert!(fill_line(&mut session, 104).is_none());
    assert!(fill_line(&mut session, 105).is_none());
    assert_eq!(session.len(), LINE_DEPTH);
    assert_eq!(ids(&session), vec![100, 101, 102, 103]);
}

#[test]
fn a_newcomer_has_an_opinion_on_everything() {
    let mut session = Session::new();
    let arrival = fill_line(&mut session, 1).unwrap();
    for rating in arrival.taste.bases() {
        assert!((1..=5).contains(&rating));
    }
    for rating in arrival.taste.glazing() {
        assert!((1..=5).contains(&rating));
    }
    for rating in arrival.taste.sprinkles() {
        assert!((1..=5).contains(&rating));
    }
    let kept = session.customers()[0];
    assert_eq!(kept.id, 1);
    assert_eq!(kept.taste.bases(), arrival.taste.bases());
    assert_eq!(kept.taste.glazing(), arrival.taste.glazing());
    assert_eq!(kept.taste.sprinkles(), arrival.taste.sprinkles());
}

#[test]
fn joining_a_full_line_is_refused() {
    let mut session = Session::new();
    assert!(session.join(fan(1)));
    assert!(session.join(fan(2)));
    assert!(session.join(fan(3)));
    assert!(session.join(fan(4)));
    assert!(!session.join(fan(5)));
    assert_eq!(ids(&session), vec![1, 2, 3, 4]);
}

#[test]
fn nobody_is_called_from_an_empty_line() {
    let mut session = Session::new();
    assert_eq!(next_customer(&mut session), None);
    assert_eq!(session.serving(), Serving::Nobody);
    assert_eq!(session.len(), 0);
}

#[test]
fn the_head_of_a_new_line_is_called_first() {
    let mut session = Session::new();
    session.join(fan(1));
    session.join(fan(2));
    session.join(fan(3));
    assert_eq!(next_customer(&mut session), Some(1));
    assert_eq!(ids(&session), vec![1, 2, 3]);
    assert_eq!(session.serving(), Serving::Waiting);
    assert_eq!(session.current().unwrap().id, 1);
}

#[test]
fn a_served_head_goes_to_the_back_and_the_next_is_called() {
    let mut session = Session::new();
    session.join(critic(1));
    session.join(fan(2));
    session.join(fan(3));
    let donut = DonutBundle::new();
    assert_eq!(next_customer(&mut session), Some(1));
    assert!(offer_cooked_donut(&mut session, Some(&donut)).is_some());
    assert_eq!(session.serving(), Serving::Served);
    assert_eq!(ids(&session), vec![1, 2, 3]);
    assert_eq!(next_customer(&mut session), Some(2));
    assert_eq!(ids(&session), vec![2, 3, 1]);
    assert_eq!(session.serving(), Serving::Waiting);
    assert_eq!(session.current().unwrap().id, 2);
    assert!(offer_cooked_donut(&mut session, Some(&donut)).unwrap().regular);
    assert_eq!(leaving(&mut session), Some(2));
    assert_eq!(session.serving(), Serving::Served);
    assert_eq!(next_customer(&mut session), Some(3));
    assert_eq!(ids(&session), vec![3, 1, 2]);
}

#[test]
fn a_newcomer_does_not_count_as_served() {
    let mut session = Session::new();
    assert_eq!(next_customer(&mut session), None);
    assert_eq!(session.serving(), Serving::Nobody);
    session.join(fan(1));
    session.join(fan(2));
    assert_eq!(session.serving(), Serving::Nobody);
    assert_eq!(next_customer(&mut session), Some(1));
    assert_eq!(ids(&session), vec![1, 2]);
}

#[test]
fn nobody_is_called_while_the_counter_is_taken() {
    let mut session = Session::new();
    session.join(fan(1));
    session.join(fan(2));
    assert_eq!(next_customer(&mut session), Some(1));
    assert_eq!(next_customer(&mut session), None);
    assert_eq!(ids(&session), vec![1, 2]);
    assert_eq!(session.serving(), Serving::Waiting);
    let donut = DonutBundle::new();
    assert!(offer_cooked_donut(&mut session, Some(&donut)).is_some());
    assert_eq!(next_customer(&mut session), None);
    assert_eq!(ids(&session), vec![1, 2]);
    assert_eq!(session.serving(), Serving::Leaving);
}

#[test]
fn a_single_customer_is_called_again_and_again() {
    let mut session = Session::new();
    session.join(fan(9));
    assert_eq!(next_customer(&mut session), Some(9));
    let donut = DonutBundle::new();
    offer_cooked_donut(&mut session, Some(&donut));
    assert_eq!(leaving(&mut session), Some(9));
    assert_eq!(next_customer(&mut session), Some(9));
    assert_eq!(ids(&session), vec![9]);
}

#[test]
fn everyone_is_called_once_per_round() {
    let mut session = Session::new();
    for id in 1..=4 {
        session.join(fan(id));
    }
    let donut = DonutBundle::new();
    let mut called = Vec::new();
    for _ in 0..4 {
        called.push(next_customer(&mut session).unwrap());
        offer_cooked_donut(&mut session, Some(&donut));
        leaving(&mut session);
    }
    assert_eq!(called, vec![1, 2, 3, 4]);
    assert_eq!(ids(&session), vec![4, 1, 2, 3]);
    assert_eq!(session.serving(), Serving::Served);
    assert_eq!(next_customer(&mut session), Some(1));
    assert_eq!(ids(&session), vec![1, 2, 3, 4]);
}

#[test]
fn critics_are_called_in_turn_without_lingering() {
    let mut session = Session::new();
    for id in 1..=3 {
        session.join(critic(id));
    }
    let donut = DonutBundle::new();
    let mut called = Vec::new();
    for _ in 0..7 {
        called.push(next_customer(&mut session).unwrap());
        let verdict = offer_cooked_donut(&mut session, Some(&donut)).unwrap();
        assert!(!verdict.regular);
        assert_eq!(leaving(&mut session), None);
    }
    assert_eq!(called, vec![1, 2, 3, 1, 2, 3, 1]);
}

#[test]
fn a_perfect_donut_makes_a_regular() {
    let mut session = Session::new();
    session.join(fan(1));
    next_customer(&mut session);
    let donut = DonutBundle::new();
    let verdict = offer_cooked_donut(&mut session, Some(&donut)).unwrap();
    assert_eq!(verdict.customer, 1);
    assert_eq!(verdict.rank, 5);
    assert_eq!(verdict.emotion, Emo::Love);
    assert!(verdict.regular);
    assert_eq!(session.serving(), Serving::Leaving);
    assert!(session.customers()[0].regular);
    assert_eq!(session.regulars(), 1);
}

#[test]
fn any_other_donut_makes_no_regular_and_the_customer_leaves_at_once() {
    let mut taste = Taste::all();
    taste.set_base(1, 2);
    let mut session = Session::new();
    session.join(Customer { id: 1, taste, regular: false });
    next_customer(&mut session);
    let mut donut = DonutBundle::new();
    donut.base = Base(1);
    let verdict = offer_cooked_donut(&mut session, Some(&donut)).unwrap();
    assert_eq!(verdict.rank, 4);
    assert_eq!(verdict.emotion, Emo::Happy);
    assert!(!verdict.regular);
    assert!(!session.customers()[0].regular);
    assert_eq!(session.regulars(), 0);
    assert_eq!(session.serving(), Serving::Served);
    assert!(session.current().is_none());
    assert_eq!(leaving(&mut session), None);
    assert!(offer_cooked_donut(&mut session, Some(&donut)).is_none());
}

#[test]
fn every_rank_below_five_has_the_customer_leave_at_once() {
    for (sprinkles, rank, emotion) in [
        (0usize, 0usize, Emo::Heartbroken),
        (1, 1, Emo::Heartbroken),
        (2, 2, Emo::Angry),
        (3, 3, Emo::Sad),
        (4, 4, Emo::Happy),
    ] {
        let mut taste = Taste::default();
        taste.set_base(0, if sprinkles == 0 { 0 } else { sprinkles + 1 });
        taste.set_glazing(0, if sprinkles == 0 { 0 } else { sprinkles });
        taste.set_sprinkles(0, if sprinkles == 0 { 0 } else { sprinkles });
        let mut session = Session::new();
        session.join(Customer { id: 5, taste, regular: true });
        next_customer(&mut session);
        let verdict = offer_cooked_donut(&mut session, Some(&DonutBundle::new())).unwrap();
        assert_eq!(verdict.rank, rank);
        assert_eq!(verdict.emotion, emotion);
        assert!(!verdict.regular);
        assert_eq!(session.serving(), Serving::Served);
        assert!(session.current().is_none());
        assert_eq!(session.regulars(), 0);
    }
}

#[test]
fn a_regular_who_gets_a_worse_donut_is_a_regular_no_more() {
    let mut taste = Taste::all();
    taste.set_glazing(3, 1);
    taste.set_sprinkles(2, 1);
    let mut session = Session::new();
    session.join(Customer { id: 1, taste, regular: false });
    next_customer(&mut session);
    let good = DonutBundle::new();
    assert!(offer_cooked_donut(&mut session, Some(&good)).unwrap().regular);
    assert_eq!(session.regulars(), 1);
    assert_eq!(session.serving(), Serving::Leaving);
    assert_eq!(session.current().unwrap().id, 1);
    let mut bad = DonutBundle::new();
    bad.glazing = Glazing(3);
    bad.sprinkles = Sprinkles(2);
    let verdict = offer_cooked_donut(&mut session, Some(&bad)).unwrap();
    assert_eq!(verdict.rank, 2);
    assert_eq!(verdict.emotion, Emo::Angry);
    assert!(!verdict.regular);
    assert_eq!(session.regulars(), 0);
    assert_eq!(session.serving(), Serving::Served);
    assert!(session.current().is_none());
}

#[test]
fn a_lingering_regular_can_be_offered_another_perfect_donut() {
    let mut session = Session::new();
    session.join(fan(1));
    next_customer(&mut session);
    let donut = DonutBundle::new();
    assert!(offer_cooked_donut(&mut session, Some(&donut)).unwrap().regular);
    assert!(offer_cooked_donut(&mut session, Some(&donut)).unwrap().regular);
    assert_eq!(session.serving(), Serving::Leaving);
    assert_eq!(session.regulars(), 1);
}

#[test]
fn an_offer_without_a_customer_or_without_a_donut_does_nothing() {
    let mut session = Session::new();
    let donut = DonutBundle::new();
    assert!(offer_cooked_donut(&mut session, Some(&donut)).is_none());
    session.join(fan(1));
    assert!(offer_cooked_donut(&mut session, Some(&donut)).is_none());
    assert_eq!(session.serving(), Serving::Nobody);
    assert!(!session.customers()[0].regular);
    next_customer(&mut session);
    assert!(offer_cooked_donut(&mut session, None).is_none());
    assert_eq!(session.serving(), Serving::Waiting);
    assert!(!session.customers()[0].regular);
}

#[test]
fn a_customer_lingers_only_after_a_perfect_donut() {
    let mut session = Session::new();
    assert_eq!(leaving(&mut session), None);
    session.join(fan(4));
    assert_eq!(leaving(&mut session), None);
    next_customer(&mut session);
    assert_eq!(leaving(&mut session), None);
    assert_eq!(session.serving(), Serving::Waiting);
    let donut = DonutBundle::new();
    let verdict = offer_cooked_donut(&mut session, Some(&donut)).unwrap();
    assert_eq!(verdict.rank, 5);
    assert_eq!(verdict.emotion, Emo::Love);
    assert_eq!(session.serving(), Serving::Leaving);
    assert_eq!(session.current().unwrap().id, 4);
    assert_eq!(leaving(&mut session), Some(4));
    assert_eq!(session.serving(), Serving::Served);
    assert!(session.current().is_none());
    assert_eq!(leaving(&mut session), None);
    assert_eq!(ids(&session), vec![4]);
}

#[test]
fn a_customer_with_no_stars_does_not_linger() {
    let mut session = Session::new();
    session.join(critic(4));
    next_customer(&mut session);
    let verdict = offer_cooked_donut(&mut session, Some(&DonutBundle::new())).unwrap();
    assert_eq!(verdict.rank, 0);
    assert_eq!(verdict.emotion, Emo::Heartbroken);
    assert_eq!(session.serving(), Serving::Served);
    assert!(session.current().is_none());
    assert_eq!(leaving(&mut session), None);
    assert_eq!(session.serving(), Serving::Served);
    assert_eq!(ids(&session), vec![4]);
}

#[test]
fn three_regulars_win_the_game() {
    let mut session = Session::new();
    for id in 1..=4 {
        session.join(fan(id));
    }
    let donut = DonutBundle::new();
    for served in 1..=4usize {
        assert_eq!(winning(&session, AppState::InGame), if served > REGULARS_TO_WIN {
            AppState::GameOver
        } else {
            AppState::InGame
        });
        next_customer(&mut session);
        offer_cooked_donut(&mut session, Some(&donut));
        leaving(&mut session);
        assert_eq!(session.regulars(), served);
        assert_eq!(
            winning(&session, AppState::InGame) == AppState::GameOver,
            served >= REGULARS_TO_WIN
        );
    }
}

#[test]
fn winning_leaves_other_states_alone_below_three_regulars() {
    let mut session = Session::new();
    session.join(Customer { id: 1, taste: Taste::all(), regular: true });
    session.join(Customer { id: 2, taste: Taste::all(), regular: true });
    assert_eq!(session.regulars(), 2);
    assert_eq!(winning(&session, AppState::InGame), AppState::InGame);
    assert_eq!(winning(&session, AppState::AssetLoading), AppState::AssetLoading);
    assert_eq!(winning(&session, AppState::GameOver), AppState::GameOver);
    session.join(Customer { id: 3, taste: Taste::all(), regular: true });
    assert_eq!(session.regulars(), 3);
    assert_eq!(winning(&session, AppState::InGame), AppState::GameOver);
    assert_eq!(winning(&session, AppState::AssetLoading), AppState::GameOver);
    assert_eq!(winning(&session, AppState::GameOver), AppState::GameOver);
}

#[test]
fn going_to_the_back_keeps_the_regulars() {
    let mut session = Session::new();
    session.join(Customer { id: 1, taste: Taste::all(), regular: true });
    session.join(critic(2));
    session.join(Customer { id: 3, taste: Taste::all(), regular: true });
    assert_eq!(session.regulars(), 2);
    assert_eq!(next_customer(&mut session), Some(1));
    offer_cooked_donut(&mut session, Some(&DonutBundle::new()));
    leaving(&mut session);
    assert_eq!(next_customer(&mut session), Some(2));
    assert_eq!(session.regulars(), 2);
    assert_eq!(ids(&session), vec![2, 3, 1]);
}

#[test]
fn the_button_starts_a_new_game() {
    assert_eq!(play_again_button(true, AppState::GameOver), AppState::InGame);
    assert_eq!(play_again_button(false, AppState::GameOver), AppState::GameOver);
    assert_eq!(play_again_button(true, AppState::InGame), AppState::InGame);
    assert_eq!(play_again_button(false, AppState::AssetLoading), AppState::AssetLoading);
}

#[test]
fn an_offer_to_nobody_does_not_look_at_the_donut() {
    let mut session = Session::new();
    let mut donut = DonutBundle::new();
    donut.base = Base(9);
    assert!(offer_cooked_donut(&mut session, Some(&donut)).is_none());
    session.join(fan(1));
    assert!(offer_cooked_donut(&mut session, Some(&donut)).is_none());
    assert_eq!(session.serving(), Serving::Nobody);
}

#[test]
fn layers_off_the_ring_are_turned_onto_it() {
    let mut donut = DonutBundle::new();
    donut.base = Base(7);
    donut.glazing = Glazing(20);
    donut.sprinkles = Sprinkles(usize::MAX);
    let keys = CookingKeys { right: true, a: true, ..no_keys() };
    assert!(keys.fit(&donut));
    change_cooking_donut(&keys, &mut donut);
    assert_eq!(donut.base, Base(2));
    assert_eq!(donut.glazing, Glazing(1));
    assert_eq!(donut.sprinkles, Sprinkles(usize::MAX));
    let buttons = CookingButtons { base_left: true, glazing_right: true, ..no_buttons() };
    donut.base = Base(7);
    donut.glazing = Glazing(20);
    assert!(buttons.fit(&donut));
    change_cooking_donut_buttons(&buttons, &mut donut);
    assert_eq!(donut.base, Base(0));
    assert_eq!(donut.glazing, Glazing(3));
    assert_eq!(donut.sprinkles, Sprinkles(usize::MAX));
}

#[test]
fn a_layer_at_the_end_of_the_numbers_cannot_be_turned() {
    let mut donut = DonutBundle::new();
    donut.sprinkles = Sprinkles(usize::MAX);
    assert!(no_keys().fit(&donut));
    assert!(CookingKeys { right: true, s: true, ..no_keys() }.fit(&donut));
    assert!(!CookingKeys { x: true, ..no_keys() }.fit(&donut));
    assert!(!CookingKeys { z: true, ..no_keys() }.fit(&donut));
    assert!(no_buttons().fit(&donut));
    assert!(!CookingButtons { sprinkles_left: true, ..no_buttons() }.fit(&donut));
    donut.sprinkles = Sprinkles(usize::MAX - 8);
    assert!(CookingKeys { x: true, ..no_keys() }.fit(&donut));
    assert!(CookingButtons { sprinkles_right: true, ..no_buttons() }.fit(&donut));
    donut.sprinkles = Sprinkles(usize::MAX - 7);
    assert!(!CookingKeys { x: true, ..no_keys() }.fit(&donut));
    donut = DonutBundle::new();
    donut.base = Base(usize::MAX - 3);
    assert!(!CookingKeys { q: true, ..no_keys() }.fit(&donut));
    assert!(!CookingButtons { base_right: true, ..no_buttons() }.fit(&donut));
    donut.base = Base(usize::MAX - 4);
    assert!(CookingKeys { q: true, ..no_keys() }.fit(&donut));
    donut = DonutBundle::new();
    donut.glazing = Glazing(usize::MAX - 6);
    assert!(!CookingKeys { s: true, ..no_keys() }.fit(&donut));
    donut.glazing = Glazing(usize::MAX - 7);
    assert!(CookingKeys { a: true, ..no_keys() }.fit(&donut));
}

#[test]
fn keys_turn_the_layers() {
    let mut donut = DonutBundle::new();
    change_cooking_donut(&no_keys(), &mut donut);
    assert_eq!(donut, DonutBundle::new());

    change_cooking_donut(&CookingKeys { right: true, ..no_keys() }, &mut donut);
    assert_eq!(donut.base, Base(1));
    change_cooking_donut(&CookingKeys { w: true, ..no_keys() }, &mut donut);
    assert_eq!(donut.base, Base(2));
    change_cooking_donut(&CookingKeys { right: true, w: true, ..no_keys() }, &mut donut);
    assert_eq!(donut.base, Base(1));
    change_cooking_donut(&CookingKeys { left: true, ..no_keys() }, &mut donut);
    assert_eq!(donut.base, Base(0));
    change_cooking_donut(&CookingKeys { q: true, ..no_keys() }, &mut donut);
    assert_eq!(donut.base, Base(2));
    change_cooking_donut(&CookingKeys { left: true, q: true, ..no_keys() }, &mut donut);
    assert_eq!(donut.base, Base(0));

    change_cooking_donut(&CookingKeys { a: true, ..no_keys() }, &mut donut);
    assert_eq!(donut.glazing, Glazing(5));
    change_cooking_donut(&CookingKeys { s: true, ..no_keys() }, &mut donut);
    assert_eq!(donut.glazing, Glazing(0));
    change_cooking_donut(&CookingKeys { s: true, ..no_keys() }, &mut donut);
    assert_eq!(donut.glazing, Glazing(1));

    change_cooking_donut(&CookingKeys { z: true, ..no_keys() }, &mut donut);
    assert_eq!(donut.sprinkles, Sprinkles(6));
    change_cooking_donut(&CookingKeys { x: true, ..no_keys() }, &mut donut);
    assert_eq!(donut.sprinkles, Sprinkles(0));
    assert_eq!(donut.base, Base(0));
    assert_eq!(donut.glazing, Glazing(1));
}

#[test]
fn opposite_keys_cancel_out() {
    let mut donut = DonutBundle::new();
    donut.base = Base(2);
    donut.glazing = Glazing(5);
    donut.sprinkles = Sprinkles(0);
    let before = donut;
    let keys = CookingKeys {
        right: true,
        left: true,
        w: true,
        q: true,
        s: true,
        a: true,
        x: true,
        z: true,
    };
    change_cooking_donut(&keys, &mut donut);
    assert_eq!(donut, before);
    let buttons = CookingButtons {
        base_left: true,
        base_right: true,
        glazing_left: true,
        glazing_right: true,
        sprinkles_left: true,
        sprinkles_right: true,
    };
    change_cooking_donut_buttons(&buttons, &mut donut);
    assert_eq!(donut, before);
}

#[test]
fn buttons_turn_the_layers() {
    let mut donut = DonutBundle::new();
    change_cooking_donut_buttons(&no_buttons(), &mut donut);
    assert_eq!(donut, DonutBundle::new());
    change_cooking_donut_buttons(&CookingButtons { base_left: true, ..no_buttons() }, &mut donut);
    assert_eq!(donut.base, Base(2));
    change_cooking_donut_buttons(&CookingButtons { base_right: true, ..no_buttons() }, &mut donut);
    assert_eq!(donut.base, Base(0));
    change_cooking_donut_buttons(
        &CookingButtons { glazing_right: true, ..no_buttons() },
        &mut donut,
    );
    assert_eq!(donut.glazing, Glazing(1));
    change_cooking_donut_buttons(&CookingButtons { glazing_left: true, ..no_buttons() }, &mut donut);
    change_cooking_donut_buttons(&CookingButtons { glazing_left: true, ..no_buttons() }, &mut donut);
    assert_eq!(donut.glazing, Glazing(5));
    change_cooking_donut_buttons(
        &CookingButtons { sprinkles_left: true, ..no_buttons() },
        &mut donut,
    );
    assert_eq!(donut.sprinkles, Sprinkles(6));
    change_cooking_donut_buttons(
        &CookingButtons { sprinkles_right: true, ..no_buttons() },
        &mut donut,
    );
    assert_eq!(donut.sprinkles, Sprinkles(0));
}

#[test]
fn a_click_and_the_key_each_put_a_donut_on_the_stove() {
    assert_eq!(cook_another_donut(false, false), 0);
    assert_eq!(cook_another_donut(true, false), 1);
    assert_eq!(cook_another_donut(false, true), 1);
    assert_eq!(cook_another_donut(true, true), 2);
}

#[test]
fn a_look_is_picked_from_what_the_sheets_hold() {
    let faces = vec![3usize, 5, 9];
    for _ in 0..200 {
        let look = random_look(&faces, 4);
        assert!(faces.contains(&look.face));
        assert!(look.hair < 4);
    }
    let look = random_look(&faces, 1);
    assert_eq!(look.hair, 0);
}

#[test]
fn a_sheet_without_faces_gives_the_first_sprite() {
    let faces: Vec<usize> = Vec::new();
    for _ in 0..20 {
        let look = random_look(&faces, 3);
        assert_eq!(look.face, 0);
        assert!(look.hair < 3);
    }
    assert_eq!(look_of_face(None), 0);
    assert_eq!(look_of_face(Some(7)), 7);
}

#[test]
fn every_hair_style_and_every_face_comes_up() {
    let faces = vec![11usize, 22];
    let mut seen_faces = [false; 2];
    let mut seen_hair = [false; 3];
    for _ in 0..500 {
        let look = random_look(&faces, 3);
        seen_faces[if look.face == 11 { 0 } else { 1 }] = true;
        seen_hair[look.hair] = true;
    }
    assert_eq!(seen_faces, [true, true]);
    assert_eq!(seen_hair, [true, true, true]);
}

#[test]
fn the_feeling_fades_before_the_customer_leaves() {
    assert_eq!(LEAVING_MILLIS, 2100);
    assert_eq!(EMOTION_MILLIS, 2000);
    assert_eq!(LINE_DEPTH, 4);
    assert_eq!(REGULARS_TO_WIN, 3);
}
