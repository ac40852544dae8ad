use stm32f7_discovery::semi_hosting::{print, print_err, Stdout};

#[test]
fn semi_hosting_lines_are_sent_whole() {
    let mut out = Stdout::new();
    let chunks = print(&mut out, "hello");
    assert!(chunks.is_empty());
    let chunks = print(&mut out, " world\nnext");
    assert_eq!(chunks, vec![b"hello world\n".to_vec()]);
    let chunks = print(&mut out, "\n");
    assert_eq!(chunks, vec![b"next\n".to_vec()]);
}

#[test]
fn semi_hosting_full_buffer_is_sent() {
    let mut out = Stdout::new();
    let long = "x".repeat(250);
    let chunks = print(&mut out, &long);
    assert_eq!(chunks.len(), 2);
    assert!(chunks.iter().all(|c| c.len() == 100));
    let rest = print(&mut out, "\n");
    assert_eq!(rest, vec![vec![b'x'; 50].into_iter().chain([b'\n']).collect::<Vec<u8>>()]);
}

#[test]
fn semi_hosting_errors_are_unbuffered() {
    assert_eq!(print_err("oops"), b"oops".to_vec());
}
