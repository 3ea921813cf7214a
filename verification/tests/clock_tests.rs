use todo_list::clock::get_current_time;

#[test]
fn current_time_is_a_timestamp() {
    let text = get_current_time();
    let chars: Vec<char> = text.chars().collect();
    assert_eq!(chars.len(), 19);
    for (i, c) in chars.iter().enumerate() {
        match i {
            4 | 7 => assert_eq!(*c, '-'),
            10 => assert_eq!(*c, ' '),
            13 | 16 => assert_eq!(*c, ':'),
            _ => assert!(c.is_ascii_digit()),
        }
    }
}
