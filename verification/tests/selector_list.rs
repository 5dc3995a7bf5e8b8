use shownote::selector::{command, help_notice, Command, Key, SelectableList};

fn labels(n: usize) -> Vec<String> {
    (0..n).map(|i| format!("item {}", i)).collect()
}

#[test]
fn new_list_highlights_the_first_item() {
    let list = SelectableList::new(labels(3));
    assert_eq!(list.len(), 3);
    assert_eq!(list.selected(), Some(0));
    assert_eq!(list.labels(), &labels(3));
}

#[test]
fn new_empty_list_highlights_nothing() {
    let list = SelectableList::new(Vec::new());
    assert_eq!(list.len(), 0);
    assert_eq!(list.selected(), None);
}

#[test]
fn next_moves_on_and_wraps() {
    let mut list = SelectableList::new(labels(3));
    list.next();
    assert_eq!(list.selected(), Some(1));
    list.next();
    assert_eq!(list.selected(), Some(2));
    list.next();
    assert_eq!(list.selected(), Some(0));
}

#[test]
fn previous_moves_back_and_wraps() {
    let mut list = SelectableList::new(labels(3));
    list.previous();
    assert_eq!(list.selected(), Some(2));
    list.previous();
    assert_eq!(list.selected(), Some(1));
    list.previous();
    assert_eq!(list.selected(), Some(0));
}

#[test]
fn next_as_often_as_items_returns_to_the_start() {
    for len in 2..7usize {
        for start in 0..len {
            let mut list = SelectableList::new(labels(len));
            for _ in 0..start {
                list.next();
            }
            assert_eq!(list.selected(), Some(start));
            for _ in 0..len {
                list.next();
            }
            assert_eq!(list.selected(), Some(start));
        }
    }
}

#[test]
fn previous_as_often_as_items_returns_to_the_start() {
    for len in 2..7usize {
        for start in 0..len {
            let mut list = SelectableList::new(labels(len));
            for _ in 0..start {
                list.next();
            }
            for _ in 0..len {
                list.previous();
            }
            assert_eq!(list.selected(), Some(start));
        }
    }
}

#[test]
fn next_then_previous_changes_nothing() {
    let mut list = SelectableList::new(labels(4));
    list.next();
    list.next();
    list.previous();
    assert_eq!(list.selected(), Some(1));
    list.previous();
    list.previous();
    list.next();
    assert_eq!(list.selected(), Some(0));
}

#[test]
fn single_item_never_moves() {
    let mut list = SelectableList::new(labels(1));
    list.next();
    assert_eq!(list.selected(), Some(0));
    list.previous();
    assert_eq!(list.selected(), Some(0));
    list.previous();
    list.next();
    list.next();
    assert_eq!(list.selected(), Some(0));
}

#[test]
fn empty_list_never_moves() {
    let mut list = SelectableList::new(Vec::new());
    list.next();
    assert_eq!(list.selected(), None);
    list.previous();
    assert_eq!(list.selected(), None);
    list.next();
    list.next();
    assert_eq!(list.selected(), None);
    assert_eq!(list.len(), 0);
}

#[test]
fn prompt_lines_show_index_and_label() {
    let list = SelectableList::new(vec!["Alpha - http://a".to_string(), "Beta - No URL".to_string()]);
    assert_eq!(
        list.prompt_lines(),
        vec!["[0] Alpha - http://a".to_string(), "[1] Beta - No URL".to_string()]
    );
    assert_eq!(SelectableList::new(Vec::new()).prompt_lines(), Vec::<String>::new());
}

#[test]
fn prompt_lines_count_in_decimal() {
    let lines = SelectableList::new(labels(12)).prompt_lines();
    assert_eq!(lines.len(), 12);
    assert_eq!(lines[9], "[9] item 9");
    assert_eq!(lines[10], "[10] item 10");
    assert_eq!(lines[11], "[11] item 11");
}

#[test]
fn keys_are_bound_to_commands() {
    assert_eq!(command(Key::Down), Command::Next);
    assert_eq!(command(Key::Char('j')), Command::Next);
    assert_eq!(command(Key::Up), Command::Previous);
    assert_eq!(command(Key::Char('k')), Command::Previous);
    assert_eq!(command(Key::Enter), Command::Confirm);
    assert_eq!(command(Key::Esc), Command::Quit);
    assert_eq!(command(Key::Char('q')), Command::Quit);
    assert_eq!(command(Key::Char('x')), Command::Nothing);
    assert_eq!(command(Key::Char('J')), Command::Nothing);
    assert_eq!(command(Key::Char('Q')), Command::Nothing);
    assert_eq!(command(Key::Other), Command::Nothing);
}

#[test]
fn help_names_the_keys() {
    assert_eq!(help_notice(), "Use ↑/↓ or j/k to navigate, Enter to select, q/Esc to quit");
}
