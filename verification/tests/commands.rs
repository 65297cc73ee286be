use chrono::{DateTime, Utc};
use tempo::cadence::Cadence;
use tempo::cli::{add, all, edit, pull, ready};
use tempo::date::Date;
use tempo::item::{Bump, Item, Reschedule};
use tempo::tag::{has_name, Tag};

fn date_of(at: DateTime<Utc>) -> Date {
    Date { seconds: at.timestamp() }
}

fn now() -> Date {
    date_of(Utc::now())
}

fn today() -> Date {
    now().start_of_day()
}

fn default() -> add::Command {
    add::Command { text: vec!["Text".into()], tag: None, cadence: None, next: None }
}

#[test]
fn next_is_used() {
    let next = now() + Cadence::weeks(1);

    let mut command = default();
    command.next = Some(next);

    assert_eq!(next, command.get_next(now()))
}

#[test]
fn next_is_calculated_based_on_cadence() {
    let now = now();
    let cadence = Cadence::days(1);

    let mut command = default();
    command.cadence = Some(cadence);
    command.next = None; // just to be explicit

    assert_eq!(now + cadence, command.get_next(now));
}

#[test]
fn cadence_is_used() {
    let cadence = Cadence::weeks(1);

    let mut command = default();
    command.cadence = Some(cadence);

    assert_eq!(cadence, command.get_cadence(now()))
}

#[test]
fn cadence_is_calculated_based_on_next() {
    let now = now();
    let next = now + Cadence::weeks(1);

    let mut command = default();
    command.cadence = None; // just to be explicit
    command.next = Some(next);

    assert_eq!(next - now, command.get_cadence(now));
    assert_eq!(Cadence::weeks(1), command.get_cadence(now));
}

#[test]
fn cadence_is_one_day_if_neither_is_present() {
    let mut command = default();
    command.cadence = None; // just to be explicit
    command.next = None; // just to be explicit

    assert_eq!(Cadence::days(1), command.get_cadence(now()));
    assert_eq!(Date { seconds: 86_400 }, command.get_next(Date { seconds: 0 }));
}

#[test]
fn adds_specified_text() {
    let mut command = default();
    command.text = vec!["Hello,".into(), "world!".into()];

    assert_eq!("Hello, world!".to_string(), command.get_text());
    assert_eq!("Text".to_string(), default().get_text());
    command.text = vec![];
    assert_eq!("".to_string(), command.get_text());
}

fn item() -> Item<()> {
    Item {
        id: 1,
        text: "test".into(),
        tag_id: Some(1),
        cadence: Cadence::days(1),
        next: Date::ymd(2022, 1, 1),
        pid: (),
    }
}

fn edit_nothing() -> edit::Command {
    edit::Command { id: 1, text: vec![], tag: None, next: None, cadence: None, bump: None }
}

#[test]
fn updates_text() {
    let mut item = item();
    let mut command = edit_nothing();
    command.text = vec!["new".into(), "text".into()];
    assert_eq!(None, command.apply(&mut item, None, Cadence::minutes(0)));

    assert_eq!("new text".to_string(), item.text);
}

#[test]
fn updates_tag() {
    let mut item = item();
    let mut command = edit_nothing();
    command.tag = Some("newtag".into());
    command.apply(&mut item, Some(2), Cadence::minutes(0));

    assert_eq!(Some(2), item.tag_id);
}

#[test]
fn updates_next() {
    let mut item = item();
    let mut command = edit_nothing();
    command.next = Some(Date::ymd(2022, 3, 1));
    command.apply(&mut item, None, Cadence::minutes(0));

    assert_eq!(Date::ymd(2022, 3, 1), item.next);
    assert_eq!(Cadence::days(1), item.cadence);
}

#[test]
fn updates_cadence() {
    let mut item = item();
    let mut command = edit_nothing();
    command.cadence = Some(Cadence::weeks(1));
    command.apply(&mut item, None, Cadence::minutes(0));

    assert_eq!(Cadence::weeks(1), item.cadence);
    assert_eq!(Date::ymd(2022, 1, 1), item.next);
}

#[test]
fn bumps_schedule() {
    let before = item();
    let mut after = item();
    let mut command = edit_nothing();
    command.bump = Some(Bump::Later);
    // What the controller answers to a first "later": 1440 * (1.5 + 0.3 - 0.1).
    let applied = command.apply(&mut after, None, Cadence::minutes(2_448));

    assert_eq!(Some(Cadence::minutes(2_448)), applied);
    assert!(before.cadence < after.cadence);
    assert!(before.next < after.next);
    assert_eq!(before.next + Cadence::minutes(2_448), after.next);
}

#[test]
fn edit_asks_for_one_change_to_the_schedule() {
    let mut command = edit_nothing();
    assert_eq!(Some(Reschedule::Keep), command.reschedule());
    command.bump = Some(Bump::Earlier);
    assert_eq!(Some(Reschedule::Bump(Bump::Earlier)), command.reschedule());
    command.next = Some(Date { seconds: 0 });
    assert_eq!(None, command.reschedule());
}

fn pulled(id: u64, text: &str, next: Date, tag: Option<&str>) -> pull::Pulled {
    pull::Pulled { id, text: text.into(), next, tag: tag.map(|name| name.to_string()) }
}

/// What the store has to hand over: the rows that are due at `now`, soonest
/// first.
fn due_rows(mut rows: Vec<pull::Pulled>, now: Date) -> Vec<pull::Pulled> {
    rows.retain(|row| row.next <= now);
    rows.sort_by_key(|row| row.next);
    rows
}

#[test]
fn pull_not_due() {
    let now = now();
    let rows = vec![pulled(1, "X", now + Cadence::days(1), None)];

    let command = pull::Command { limit: None, tag: vec![] };
    let items = command.items(due_rows(rows, now));

    assert!(items.is_empty());
}

#[test]
fn pull_due() {
    let now = now();
    let cadence = Cadence::days(1);
    let next = now - cadence;
    let rows = vec![pulled(1, "X", next, None)];

    let command = pull::Command { limit: None, tag: vec![] };
    let items = command.items(due_rows(rows, now));

    assert_eq!(vec![pulled(1, "X", next, None)], items);
}

#[test]
fn pull_not_matching_tag() {
    let now = now();
    let next = now - Cadence::days(1);
    let rows = vec![pulled(1, "X", next, None)];

    let command = pull::Command { limit: None, tag: vec!["x".into()] };
    let items = command.items(due_rows(rows, now));

    assert!(items.is_empty());
}

#[test]
fn pull_matching_tag() {
    let now = now();
    let tag_name = "tag";
    let next = now - Cadence::days(1);
    let rows = vec![pulled(1, "X", next, Some(tag_name))];

    let command = pull::Command { limit: None, tag: vec![tag_name.into()] };
    let items = command.items(due_rows(rows, now));

    assert_eq!(vec![pulled(1, "X", next, Some(tag_name))], items);
}

#[test]
fn pull_limit() {
    let later = Cadence::days(1);
    let earlier = Cadence::days(2);
    let now = now();

    let due_earlier = now - earlier;
    let due_later = now - later;
    let rows = vec![
        pulled(1, "Due Earlier", due_earlier, None),
        pulled(2, "Due Later", due_later, None),
    ];

    let command = pull::Command { limit: Some(1), tag: vec![] };
    let items = command.items(due_rows(rows, now));

    assert_eq!(vec![pulled(1, "Due Earlier", due_earlier, None)], items);
}

#[test]
fn pull_keeps_tagged_items_out_when_no_tag_is_named() {
    let now = now();
    let rows = vec![
        pulled(1, "A", now, Some("a")),
        pulled(2, "B", now, None),
        pulled(3, "C", now, Some("c")),
        pulled(4, "D", now, None),
    ];

    let none = pull::Command { limit: None, tag: vec![] };
    assert_eq!(
        vec![pulled(2, "B", now, None), pulled(4, "D", now, None)],
        none.items(due_rows(rows, now))
    );

    let rows = vec![
        pulled(1, "A", now, Some("a")),
        pulled(2, "B", now, None),
        pulled(3, "C", now, Some("c")),
        pulled(5, "A again", now, Some("a")),
    ];
    let some = pull::Command { limit: Some(5), tag: vec!["c".into(), "a".into()] };
    assert_eq!(
        vec![
            pulled(1, "A", now, Some("a")),
            pulled(3, "C", now, Some("c")),
            pulled(5, "A again", now, Some("a")),
        ],
        some.items(due_rows(rows, now))
    );

    let nothing = pull::Command { limit: Some(0), tag: vec![] };
    assert!(nothing.items(vec![pulled(2, "B", now, None)]).is_empty());
}

#[test]
fn display_tag() {
    assert_eq!("books", pull::display_tag(&Some("books".to_string())));
    assert_eq!("-", pull::display_tag(&None));
}

fn ready_item(id: u64, text: &str, next: Date, cadence: Cadence, tag_id: Option<u64>) -> Item<()> {
    Item { id, text: text.into(), tag_id, cadence, next, pid: () }
}

fn due_items(mut rows: Vec<Item<()>>, now: Date) -> Vec<Item<()>> {
    rows.retain(|row| row.next <= now);
    rows.sort_by_key(|row| row.next);
    rows
}

#[test]
fn ready_not_due() {
    let today = today();
    let rows = vec![ready_item(1, "X", today + Cadence::days(1), Cadence::days(1), None)];

    let command = ready::Command { limit: None, tag: None };
    let items = command.items(&vec![], due_items(rows, now()));

    assert!(items.is_empty());
}

#[test]
fn ready_due() {
    let cadence = Cadence::days(1);
    let next = today() - cadence;
    let rows = vec![ready_item(1, "X", next, cadence, None)];

    let command = ready::Command { limit: None, tag: None };
    let items = command.items(&vec![], due_items(rows, now()));

    assert_eq!(vec![ready_item(1, "X", next, cadence, None)], items);
}

#[test]
fn ready_not_matching_tag() {
    let cadence = Cadence::days(1);
    let next = today() - cadence;
    let rows = vec![ready_item(1, "X", next, cadence, None)];

    let command = ready::Command { limit: None, tag: Some(vec!["x".into()]) };
    let items = command.items(&vec![], due_items(rows, now()));

    assert!(items.is_empty());
}

#[test]
fn tagged_item_with_no_tag_specified() {
    let tags = vec![Tag { id: 1, name: "tag".into() }];
    let cadence = Cadence::days(1);
    let next = today() - cadence;
    let rows = vec![ready_item(1, "X", next, cadence, Some(1))];

    let command = ready::Command { limit: None, tag: None };
    let items = command.items(&tags, due_items(rows, now()));

    assert_eq!(vec![ready_item(1, "X", next, cadence, Some(1))], items);
}

#[test]
fn ready_matching_tag() {
    let tag_name = "tag";
    let tags = vec![Tag { id: 1, name: tag_name.into() }];
    let cadence = Cadence::days(1);
    let next = today() - cadence;
    let rows = vec![ready_item(1, "X", next, cadence, Some(1))];

    let command = ready::Command { limit: None, tag: Some(vec![tag_name.into()]) };
    let items = command.items(&tags, due_items(rows, now()));

    assert_eq!(vec![ready_item(1, "X", next, cadence, Some(1))], items);
}

#[test]
fn ready_limit() {
    let later = Cadence::days(1);
    let earlier = Cadence::days(2);
    let today = today();

    let due_later = today - later;
    let due_earlier = today - earlier;
    let rows = vec![
        ready_item(1, "Due Later", due_later, later, None),
        ready_item(2, "Due Earlier", due_earlier, earlier, None),
    ];

    let command = ready::Command { limit: Some(1), tag: None };
    let items = command.items(&vec![], due_items(rows, now()));

    assert_eq!(vec![ready_item(2, "Due Earlier", due_earlier, earlier, None)], items);
}

#[test]
fn sorted_by_next_ascending() {
    let later = Cadence::days(1);
    let earlier = Cadence::days(2);
    let today = today();

    let due_earlier = today - earlier;
    let due_later = today - later;
    let rows = vec![
        ready_item(1, "Due Earlier", due_earlier, earlier, None),
        ready_item(2, "Due Later", due_later, later, None),
    ];

    let command = ready::Command { limit: None, tag: None };
    let items = command.items(&vec![], due_items(rows, now()));

    assert_eq!(
        vec![
            ready_item(1, "Due Earlier", due_earlier, earlier, None),
            ready_item(2, "Due Later", due_later, later, None),
        ],
        items
    );
}

#[test]
fn ready_goes_by_the_ids_of_the_tags_named() {
    let tags = vec![
        Tag { id: 1, name: "home".into() },
        Tag { id: 2, name: "work".into() },
        Tag { id: 3, name: "garden".into() },
    ];
    let at = Date { seconds: 0 };
    let every = Cadence::days(1);
    let rows = || {
        vec![
            ready_item(1, "A", at, every, Some(1)),
            ready_item(2, "B", at, every, None),
            ready_item(3, "C", at, every, Some(3)),
            ready_item(4, "D", at, every, Some(2)),
            ready_item(5, "E", at, every, Some(9)),
        ]
    };

    let command = ready::Command { limit: None, tag: Some(vec!["garden".into(), "home".into()]) };
    assert_eq!(
        vec![ready_item(1, "A", at, every, Some(1)), ready_item(3, "C", at, every, Some(3))],
        command.items(&tags, rows())
    );

    let command = ready::Command { limit: Some(1), tag: Some(vec!["work".into(), "none".into()]) };
    assert_eq!(vec![ready_item(4, "D", at, every, Some(2))], command.items(&tags, rows()));

    let command = ready::Command { limit: None, tag: Some(vec![]) };
    assert!(command.items(&tags, rows()).is_empty());

    let mut ids = ready::ids_named(&tags, &vec!["work".to_string(), "home".to_string()]);
    ids.sort();
    assert_eq!(vec![1, 2], ids);

    assert!(has_name(&vec!["a".to_string(), "b".to_string()], &"b".to_string()));
    assert!(!has_name(&vec!["a".to_string(), "b".to_string()], &"c".to_string()));
}

#[test]
fn all_lists_every_item_or_those_of_a_tag() {
    let at = Date { seconds: 0 };
    let every = Cadence::days(1);
    let rows = || {
        vec![
            ready_item(1, "A", at, every, Some(2)),
            ready_item(2, "B", at, every, None),
            ready_item(3, "C", at, every, Some(1)),
            ready_item(4, "D", at, every, Some(2)),
        ]
    };

    assert_eq!(rows(), all::items(rows(), None));
    assert_eq!(
        vec![ready_item(1, "A", at, every, Some(2)), ready_item(4, "D", at, every, Some(2))],
        all::items(rows(), Some(2))
    );
    assert!(all::items(rows(), Some(7)).is_empty());
}
