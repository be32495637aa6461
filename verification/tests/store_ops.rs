use todo_list::store::{OutOfRange, Todo, TodoList};

#[test]
fn add_appends_fresh_entry() {
    let mut list = TodoList::new();
    assert_eq!(list.len(), 0);
    let i = list.add("Buy milk".to_string());
    assert_eq!(i, 0);
    assert_eq!(list.len(), 1);
    assert_eq!(list.text_at(0), Ok("Buy milk".to_string()));
    assert_eq!(list.completed_at(0), Ok(false));
    let j = list.add("Buy eggs".to_string());
    assert_eq!(j, 1);
    assert_eq!(list.len(), 2);
    assert_eq!(list.text_at(1), Ok("Buy eggs".to_string()));
    assert_eq!(list.completed_at(1), Ok(false));
}

#[test]
fn toggle_twice_restores_flag() {
    let mut list = TodoList::new();
    list.add("Buy milk".to_string());
    assert_eq!(list.completed_at(0), Ok(false));
    assert_eq!(list.toggle(0), Ok(()));
    assert_eq!(list.completed_at(0), Ok(true));
    assert_eq!(list.toggle(0), Ok(()));
    assert_eq!(list.completed_at(0), Ok(false));
}

#[test]
fn toggle_out_of_range_is_rejected() {
    let mut list = TodoList::new();
    list.add("Buy milk".to_string());
    assert_eq!(list.toggle(1), Err(OutOfRange));
    assert_eq!(list.completed_at(0), Ok(false));
}

#[test]
fn remove_shortens_and_keeps_order() {
    let mut list = TodoList::new();
    list.add("Buy milk".to_string());
    list.add("Buy eggs".to_string());
    list.add("Buy bread".to_string());
    list.add("Buy butter".to_string());
    assert_eq!(list.remove(1), Ok(()));
    assert_eq!(list.len(), 3);
    assert_eq!(list.text_at(0), Ok("Buy milk".to_string()));
    assert_eq!(list.text_at(1), Ok("Buy bread".to_string()));
    assert_eq!(list.text_at(2), Ok("Buy butter".to_string()));
}

#[test]
fn remove_out_of_range_is_rejected() {
    let mut list = TodoList::new();
    list.add("Buy milk".to_string());
    assert_eq!(list.remove(1), Err(OutOfRange));
    assert_eq!(list.len(), 1);
}

#[test]
fn append_then_pop_restores_text() {
    let mut list = TodoList::new();
    list.add("Buy milk".to_string());
    assert_eq!(list.append_char(0, '!'), Ok(()));
    assert_eq!(list.text_at(0), Ok("Buy milk!".to_string()));
    assert_eq!(list.pop_char(0), Ok(()));
    assert_eq!(list.text_at(0), Ok("Buy milk".to_string()));
}

#[test]
fn pop_char_on_empty_text_is_a_no_op() {
    let mut list = TodoList::new();
    list.add(String::new());
    assert_eq!(list.pop_char(0), Ok(()));
    assert_eq!(list.text_at(0), Ok(String::new()));
}

#[test]
fn edit_out_of_range_is_rejected() {
    let mut list = TodoList::new();
    assert_eq!(list.append_char(0, 'a'), Err(OutOfRange));
    assert_eq!(list.pop_char(0), Err(OutOfRange));
    assert_eq!(list.text_at(0), Err(OutOfRange));
    assert_eq!(list.completed_at(0), Err(OutOfRange));
}

#[test]
fn todo_toggle_flips_only_the_flag() {
    let mut t = Todo::new("Buy milk".to_string());
    assert!(!t.completed);
    t.toggle();
    assert!(t.completed);
    assert_eq!(t.text, "Buy milk".to_string());
    t.toggle();
    assert!(!t.completed);
}
