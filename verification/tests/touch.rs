use stm32f7_discovery::touch::{data_register, decode_touch, touch_count, touches};

#[test]
fn touch_count_from_status() {
    assert_eq!(touch_count(0x02), 2);
    assert_eq!(touch_count(0xF5), 5);
    assert_eq!(touch_count(0x06), 0);
    assert_eq!(touch_count(0x0F), 0);
}

#[test]
fn touch_decoding() {
    let t = decode_touch([0xF1, 0x23, 0x82, 0x45]);
    assert_eq!(t.y, 0x123);
    assert_eq!(t.x, 0x245);
    assert_eq!(data_register(0), 0x03);
    assert_eq!(data_register(4), 0x1B);
}

#[test]
fn touch_list() {
    let data = vec![[0x00, 0x10, 0x00, 0x20], [0x01, 0x00, 0x01, 0xE0]];
    let list = touches(0x42, &data);
    assert_eq!(list.len(), 2);
    assert_eq!((list[0].x, list[0].y), (0x20, 0x10));
    assert_eq!((list[1].x, list[1].y), (0x1E0, 0x100));
    assert_eq!(touches(0x07, &vec![]).len(), 0);
}
