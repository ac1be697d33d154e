use patina::cpu::Controller;

/* buttons, one bit each: A, B, Select, Start, Up, Down, Left, Right */
const B: u8 = 1 << 1;
const SELECT: u8 = 1 << 2;
const START: u8 = 1 << 3;
const UP: u8 = 1 << 4;

#[test]
fn test_controller() {
    let mut controller = Controller::new();
    /* up, select and B pressed (a key that is no button has no bit) */
    controller.set_key_source(UP | SELECT | B);
    controller.record_data();
    /* make sure we got the write output */
    assert_eq!(controller.get_next_byte(), 0); // A off
    assert_eq!(controller.get_next_byte(), 1); // B on
    assert_eq!(controller.get_next_byte(), 1); // select on
    assert_eq!(controller.get_next_byte(), 0); // start off
    assert_eq!(controller.get_next_byte(), 1); // up on
    assert_eq!(controller.get_next_byte(), 0); // down off
    assert_eq!(controller.get_next_byte(), 0); // left off
    assert_eq!(controller.get_next_byte(), 0); // right off
    assert_eq!(controller.get_next_byte(), 1); // will output 1 indefinitely
    assert_eq!(controller.get_next_byte(), 1); // will output 1 indefinitely
    assert_eq!(controller.get_next_byte(), 1); // will output 1 indefinitely

    /* as a memory listener, Controller only listens to one address but will respond
     * to any address--this should be firmed up, to allow for two controllers
     */
    controller.set_key_source(START); // clear out keys except start
    assert_eq!(controller.read(0x1234), 1); // always returns 1 now
    assert_eq!(controller.read(0x1234), 1); // always returns 1 now
    assert_eq!(controller.read(0x1234), 1); // always returns 1 now
    controller.write(0x1234, 1);
    assert_eq!(controller.read(0x1234), 1); // STILL always returns 1 now
    assert_eq!(controller.read(0x1234), 1); // always returns 1 now
    assert_eq!(controller.read(0x1234), 1); // always returns 1 now
    controller.write(0x1234, 0); // after this write, we can read!
    assert_eq!(controller.read(0x1234), 0); // A off
    assert_eq!(controller.read(0x1234), 0); // B off
    assert_eq!(controller.read(0x1234), 0); // select off
    assert_eq!(controller.read(0x1234), 1); // start on
    assert_eq!(controller.read(0x1234), 0); // directions off
    assert_eq!(controller.read(0x1234), 0); // directions off
    assert_eq!(controller.read(0x1234), 0); // directions off
    assert_eq!(controller.read(0x1234), 0); // directions off
    assert_eq!(controller.read(0x1234), 1); // always returns 1 now
}
