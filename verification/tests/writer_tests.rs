use ws_console::msg::{Color, ConsoleMsg};
use ws_console::writer::Writer;

#[test]
fn single_producer_order() {
    let (tx, rx) = flume::unbounded::<ConsoleMsg>();
    let mut w = Writer::new(tx);
    assert!(w.write_col(Color::Red, String::from("A")));
    assert!(w.write(String::from("B")));
    drop(w);
    let first = rx.recv().expect("first message must arrive");
    assert_eq!(first.color, Color::Red);
    assert_eq!(first.text, "A");
    let second = rx.recv().expect("second message must arrive");
    assert_eq!(second.color, Color::Default);
    assert_eq!(second.text, "B");
    assert!(rx.recv().is_err());
}

#[test]
fn write_reports_lost_console() {
    let (tx, rx) = flume::unbounded::<ConsoleMsg>();
    drop(rx);
    let mut w = Writer::new(tx);
    assert!(!w.write(String::from("nobody listens")));
}
