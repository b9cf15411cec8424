use corten::color::{color_from_bytes, color_to_bytes, ChannelOrder, Color};

#[test]
fn color_accessors() {
    let c = Color::new(10, 20, 30, 40);
    assert_eq!(c.rgba(), (10, 20, 30, 40));
    assert_eq!(c, Color { r: 10, g: 20, b: 30, a: 40 });
}

#[test]
fn byte_layout_per_order() {
    let c = Color::new(1, 2, 3, 4);
    assert_eq!(color_to_bytes(c, ChannelOrder::Rgba), [1, 2, 3, 4]);
    assert_eq!(color_to_bytes(c, ChannelOrder::Abgr), [4, 3, 2, 1]);
}

#[test]
fn bytes_round_trip_either_order() {
    let colors = [
        Color::new(0, 0, 0, 0),
        Color::new(255, 255, 255, 255),
        Color::new(64, 192, 64, 255),
        Color::new(17, 17, 17, 255),
    ];
    for c in colors {
        for order in [ChannelOrder::Rgba, ChannelOrder::Abgr] {
            let bytes = color_to_bytes(c, order);
            assert_eq!(color_from_bytes(&bytes, order), c);
        }
    }
}

#[test]
fn mixed_orders_do_not_round_trip() {
    let c = Color::new(1, 2, 3, 4);
    let bytes = color_to_bytes(c, ChannelOrder::Rgba);
    assert_ne!(color_from_bytes(&bytes, ChannelOrder::Abgr), c);
}
