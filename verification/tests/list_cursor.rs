use des::list_cursor::ListCursor;

#[test]
fn new_cursor_selects_nothing() {
    let c = ListCursor::new();
    assert_eq!(c, ListCursor { offset: 0, selected: None });
    assert_eq!(c.selected(), None);
}

#[test]
fn next_and_previous() {
    let mut c = ListCursor::new();
    c.select_next();
    assert_eq!(c.selected, Some(0));
    c.select_next();
    assert_eq!(c.selected, Some(1));
    c.select_previous();
    c.select_previous();
    c.select_previous();
    assert_eq!(c.selected, Some(0));
}

#[test]
fn previous_from_nothing_goes_to_the_end() {
    let mut c = ListCursor { offset: 4, selected: None };
    c.select_previous();
    assert_eq!(c, ListCursor { offset: 4, selected: Some(usize::MAX) });
    c.select_next();
    assert_eq!(c.selected, Some(usize::MAX));
}

#[test]
fn first_keeps_offset() {
    let mut c = ListCursor { offset: 7, selected: Some(9) };
    c.select_first();
    assert_eq!(c, ListCursor { offset: 7, selected: Some(0) });
}
