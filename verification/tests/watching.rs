use clipboard_win::{
    format_name_from, get_clipboard_seq_num, get_clipboard_string, ClipboardManager, FormatScan,
    Reply, Turn, Watch, WinResult,
};
use std::cell::RefCell;

#[test]
fn zero_sequence_number_means_no_access() {
    assert_eq!(get_clipboard_seq_num(0), None);
    assert_eq!(get_clipboard_seq_num(1), Some(1));
    assert_eq!(get_clipboard_seq_num(u32::MAX), Some(u32::MAX));
}

#[test]
fn watch_cannot_start_without_access() {
    assert_eq!(Watch::seed(None), None);
    assert_eq!(Watch::seed(Some(0)), None);
    assert_eq!(Watch::seed(Some(42)), Some(Watch { remembered: 42 }));
}

#[test]
fn same_number_calls_for_no_read() {
    let mut w = Watch::seed(Some(42)).unwrap();
    assert!(!w.observe(Some(42)));
    assert!(!w.observe(Some(42)));
    assert_eq!(w.remembered, 42);
}

#[test]
fn changed_number_calls_for_one_read() {
    let mut w = Watch::seed(Some(42)).unwrap();
    assert!(w.observe(Some(43)));
    assert_eq!(w.remembered, 43);
    assert!(!w.observe(Some(43)));
    assert_eq!(w.remembered, 43);
}

#[test]
fn wrapped_counter_still_counts_as_change() {
    let mut w = Watch::seed(Some(u32::MAX)).unwrap();
    assert!(w.observe(Some(1)));
    assert_eq!(w.remembered, 1);
}

#[test]
fn no_access_changes_nothing() {
    let mut w = Watch::seed(Some(42)).unwrap();
    assert!(!w.observe(None));
    assert_eq!(w.remembered, 42);
    assert!(!w.observe(Some(0)));
    assert_eq!(w.remembered, 42);
    assert!(w.observe(Some(50)));
}

#[test]
fn manager_defaults_and_builders() {
    let mut m = ClipboardManager::new(|_: &String| (), |_: &WinResult| ());
    assert_eq!(m.delay_ms, 100);
    assert_eq!(m.delay(250).delay_ms, 250);
    let m = m.ok_callback(|_: &String| ()).err_callback(|_: &WinResult| ());
    assert_eq!(m.delay_ms, 250);
}

#[test]
fn dispatch_invokes_exactly_one_handler() {
    let seen: RefCell<Vec<String>> = RefCell::new(Vec::new());
    let m = ClipboardManager::new(
        |text: &String| seen.borrow_mut().push(format!("ok:{}", text)),
        |e: &WinResult| seen.borrow_mut().push(format!("err:{}", e.errno())),
    );
    m.dispatch(&Ok("copied".to_string()));
    assert_eq!(*seen.borrow(), vec!["ok:copied".to_string()]);
    m.dispatch(&Err(WinResult::new(1418)));
    assert_eq!(*seen.borrow(), vec!["ok:copied".to_string(), "err:1418".to_string()]);
}

#[test]
fn replaced_handlers_are_the_ones_invoked() {
    let seen: RefCell<Vec<u32>> = RefCell::new(Vec::new());
    let m = ClipboardManager::new(|_: &String| (), |_: &WinResult| ())
        .ok_callback(|_: &String| seen.borrow_mut().push(1))
        .err_callback(|_: &WinResult| seen.borrow_mut().push(2));
    m.dispatch(&Err(WinResult::new(5)));
    m.dispatch(&Ok(String::new()));
    assert_eq!(*seen.borrow(), vec![2, 1]);
}

fn enumerate(answers: &[u32], last_error: u32) -> (Result<Vec<u32>, WinResult>, Vec<u32>) {
    let mut scan = FormatScan::new();
    let mut asked: Vec<u32> = Vec::new();
    let mut next = 0usize;
    while let Some(after) = scan.next_query() {
        asked.push(after);
        scan.accept(answers[next]);
        next += 1;
    }
    (scan.finish(last_error), asked)
}

#[test]
fn empty_clipboard_lists_no_formats() {
    let (formats, asked) = enumerate(&[0], 0);
    assert_eq!(formats, Ok(vec![]));
    assert_eq!(asked, vec![0]);
}

#[test]
fn formats_are_listed_in_the_order_reported() {
    let (formats, asked) = enumerate(&[13, 49_200, 0, 99], 0);
    assert_eq!(formats, Ok(vec![13, 49_200]));
    assert_eq!(asked, vec![0, 13, 49_200]);
}

#[test]
fn enumeration_error_is_read_once_at_the_end() {
    let (formats, _) = enumerate(&[13, 0], 5);
    assert_eq!(formats, Err(WinResult::new(5)));
}

#[test]
fn answers_after_the_end_are_ignored() {
    let mut scan = FormatScan::new();
    scan.accept(1);
    scan.accept(0);
    scan.accept(7);
    assert_eq!(scan.next_query(), None);
    assert_eq!(scan.finish(0), Ok(vec![1]));
}

#[test]
fn predefined_format_has_no_name() {
    let buff = [0u16; 30];
    assert_eq!(format_name_from(0, &buff), None);
}

#[test]
fn registered_format_name_is_returned() {
    let mut buff = [0u16; 30];
    let name: Vec<u16> = "MyFormat".encode_utf16().collect();
    buff[..name.len()].copy_from_slice(&name);
    assert_eq!(format_name_from(name.len(), &buff), Some("MyFormat".to_string()));
}

#[test]
fn format_name_is_bounded_by_the_buffer() {
    let buff = [0x41u16, 0x42];
    assert_eq!(format_name_from(5, &buff), Some("AB".to_string()));
    assert_eq!(format_name_from(1, &buff), Some("A".to_string()));
}

#[test]
fn one_query_per_format_and_one_more() {
    let (_, asked) = enumerate(&[5, 6, 7, 8, 0, 9, 0], 0);
    assert_eq!(asked, vec![0, 5, 6, 7, 8]);
    assert_eq!(asked.len(), 4 + 1);
    let (_, asked) = enumerate(&[0, 3], 0);
    assert_eq!(asked.len(), 1);
}

#[test]
fn turn_without_change_only_waits() {
    let mut m = ClipboardManager::new(|_: &String| (), |_: &WinResult| ());
    m.delay(30);
    let mut watch = Watch::seed(Some(7)).unwrap();
    assert_eq!(m.run(&mut watch, Some(7)), Turn::Wait { delay_ms: 30 });
    assert_eq!(m.run(&mut watch, None), Turn::Wait { delay_ms: 30 });
    assert_eq!(m.run(&mut watch, Some(0)), Turn::Wait { delay_ms: 30 });
    assert_eq!(watch.remembered, 7);
}

#[test]
fn turn_with_change_reads_the_text() {
    let m = ClipboardManager::new(|_: &String| (), |_: &WinResult| ());
    let mut watch = Watch::seed(Some(7)).unwrap();
    let turn = m.run(&mut watch, Some(8));
    assert_eq!(turn, Turn::Read { transfer: get_clipboard_string(), delay_ms: 100 });
    assert_eq!(watch.remembered, 8);
    assert_eq!(m.run(&mut watch, Some(8)), Turn::Wait { delay_ms: 100 });
}

#[test]
fn notify_waits_for_the_transfer_to_finish() {
    let seen: RefCell<Vec<String>> = RefCell::new(Vec::new());
    let m = ClipboardManager::new(
        |text: &String| seen.borrow_mut().push(format!("ok:{}", text)),
        |e: &WinResult| seen.borrow_mut().push(format!("err:{}", e.errno())),
    );
    let mut t = get_clipboard_string();
    for _ in 0..5 {
        t = t.step(Reply::Done);
        assert!(!m.notify(&t, Some("early".to_string())));
    }
    assert!(seen.borrow().is_empty());
    t = t.step(Reply::Done);
    assert!(!t.session_open);
    assert!(!m.notify(&t, None));
    assert!(m.notify(&t, Some("copied".to_string())));
    assert_eq!(*seen.borrow(), vec!["ok:copied".to_string()]);
}

#[test]
fn notify_hands_a_failure_to_the_failure_handler_only() {
    let seen: RefCell<Vec<String>> = RefCell::new(Vec::new());
    let m = ClipboardManager::new(
        |text: &String| seen.borrow_mut().push(format!("ok:{}", text)),
        |e: &WinResult| seen.borrow_mut().push(format!("err:{}", e.errno())),
    );
    let refused = get_clipboard_string().step(Reply::Failed(WinResult::new(5)));
    assert!(m.notify(&refused, None));
    let absent = get_clipboard_string()
        .step(Reply::Done)
        .step(Reply::Failed(WinResult::new(1168)));
    assert!(!m.notify(&absent, None));
    let absent = absent.step(Reply::Done);
    assert!(m.notify(&absent, Some("stale".to_string())));
    assert_eq!(*seen.borrow(), vec!["err:5".to_string(), "err:1168".to_string()]);
}
