use sales::message_header_codec::{MessageHeaderDecoder, ENCODED_LENGTH};
use sales::order_message_codec::decoder::ItemsDecoder;
use sales::order_message_codec::encoder::ItemsEncoder;
use sales::order_message_codec::{OrderMessageDecoder, OrderMessageEncoder};
use sales::order_type::OrderType;
use sales::{ActingVersion, Decoder, Encoder, ReadBuf, SbeErr, WriteBuf};

struct Line {
    product_id: u32,
    quantity: u16,
    mantissa: i64,
}

fn write_order(
    buffer: &mut [u8],
    ids: (u64, u64, u64),
    kind: OrderType,
    lines: &[Line],
    note: &str,
) -> usize {
    let mut order = OrderMessageEncoder::default().wrap(WriteBuf::new(buffer), ENCODED_LENGTH);
    order = order.header(0).parent().unwrap();
    order.order_id(ids.0);
    order.client_id(ids.1);
    order.timestamp(ids.2);
    order.order_type(kind);
    let mut items = order.items_encoder(lines.len() as u8, ItemsEncoder::default());
    for (i, line) in lines.iter().enumerate() {
        assert_eq!(items.advance(), Ok(Some(i)));
        items.product_id(line.product_id);
        items.quantity(line.quantity);
        let mut price = items.unit_price_encoder();
        price.mantissa(line.mantissa);
        items = price.parent().unwrap();
    }
    assert_eq!(items.advance(), Ok(None));
    order = items.parent().unwrap();
    order.customer_note(note);
    order.get_limit()
}

fn open_order(buffer: &[u8]) -> OrderMessageDecoder<'_> {
    let read_buf = ReadBuf::new(buffer);
    let header = MessageHeaderDecoder::default().wrap(read_buf, 0);
    OrderMessageDecoder::default().header(header, 0)
}

fn read_lines(
    order: OrderMessageDecoder<'_>,
) -> (Vec<(u32, u16, i64)>, OrderMessageDecoder<'_>) {
    let mut items = order.items_decoder();
    let mut lines = Vec::new();
    while let Some(_) = items.advance().unwrap() {
        let product_id = items.product_id();
        let quantity = items.quantity();
        let mut price = items.unit_price_decoder();
        lines.push((product_id, quantity, price.mantissa()));
        items = price.parent().unwrap();
    }
    (lines, items.parent().unwrap())
}

#[test]
fn one_item_and_a_note_are_read_back() {
    let mut buffer = [0u8; 512];
    let lines = [Line { product_id: 222, quantity: 2, mantissa: 22 }];
    let end = write_order(&mut buffer, (234, 135, 246), OrderType::Cancel, &lines, "duck is angry");
    assert_eq!(end, 65);
    let mut expected = vec![25u8, 0, 1, 0, 1, 0, 0, 0];
    expected.extend_from_slice(&[234, 0, 0, 0, 0, 0, 0, 0]);
    expected.extend_from_slice(&[135, 0, 0, 0, 0, 0, 0, 0]);
    expected.extend_from_slice(&[246, 0, 0, 0, 0, 0, 0, 0]);
    expected.push(2);
    expected.extend_from_slice(&[14, 0, 1]);
    expected.extend_from_slice(&[222, 0, 0, 0, 2, 0, 22, 0, 0, 0, 0, 0, 0, 0]);
    expected.extend_from_slice(&[13, 0]);
    expected.extend_from_slice(b"duck is angry");
    assert_eq!(&buffer[..end], &expected[..]);
    assert!(buffer[end..].iter().all(|b| *b == 0));

    let order = open_order(&buffer);
    assert_eq!(order.acting_block_length, 25);
    assert_eq!(order.acting_version, 0);
    assert_eq!(order.order_id(), 234);
    assert_eq!(order.client_id(), 135);
    assert_eq!(order.timestamp(), 246);
    assert_eq!(order.order_type(), OrderType::Cancel);
    let (lines, mut order) = read_lines(order);
    assert_eq!(lines, vec![(222, 2, 22)]);
    let (offset, len) = order.customer_note_decoder();
    assert_eq!((offset, len), (52, 13));
    assert_eq!(order.customer_note_slice((offset, len)), b"duck is angry");
    assert_eq!(order.get_limit(), 65);
    assert_eq!(order.encoded_length(), 57);
}

#[test]
fn two_items_keep_their_order() {
    let mut buffer = [0u8; 512];
    let lines = [
        Line { product_id: 222, quantity: 2, mantissa: 2345 },
        Line { product_id: 333, quantity: 3, mantissa: 4567 },
    ];
    let end = write_order(&mut buffer, (234, 135, 246), OrderType::New, &lines, "duck is angry");
    assert_eq!(end, 8 + 25 + 3 + 2 * 14 + 2 + 13);

    let order = open_order(&buffer);
    assert_eq!(order.order_type(), OrderType::New);
    let mut items = order.items_decoder();
    assert_eq!(items.count(), 2);
    assert_eq!(items.advance(), Ok(Some(0)));
    assert_eq!((items.product_id(), items.quantity()), (222, 2));
    let mut price = items.unit_price_decoder();
    assert_eq!((price.mantissa(), price.exponent()), (2345, -2));
    items = price.parent().unwrap();
    assert_eq!(items.advance(), Ok(Some(1)));
    assert_eq!((items.product_id(), items.quantity()), (333, 3));
    let mut price = items.unit_price_decoder();
    assert_eq!(price.mantissa(), 4567);
    items = price.parent().unwrap();
    assert_eq!(items.advance(), Ok(None));
    assert_eq!(items.count(), 2);
}

#[test]
fn a_field_of_a_later_version_is_absent() {
    let mut buffer = [0u8; 512];
    write_order(&mut buffer, (1, 2, 3), OrderType::Update, &[], "");
    let order = open_order(&buffer);
    assert_eq!(order.acting_version(), 0);
    assert!(order.carries_since(0));
    assert!(!order.carries_since(1));
    assert!(!order.carries_since(u16::MAX));

    // the version goes down from the header to every nested cursor
    buffer[6] = 3;
    buffer[35] = 1;
    let order = open_order(&buffer);
    assert_eq!(order.acting_version(), 3);
    let mut items = order.items_decoder();
    assert_eq!(items.acting_version(), 3);
    assert!(items.carries_since(3));
    assert!(!items.carries_since(4));
    assert_eq!(items.advance(), Ok(Some(0)));
    let mut price = items.unit_price_decoder();
    assert_eq!(price.acting_version(), 3);
    assert!(price.carries_since(2));
    assert!(!price.carries_since(4));
    let mut items = price.parent().unwrap();
    assert_eq!(items.acting_version(), 3);
    let order = items.parent().unwrap();
    // a decoder of another message is not touched by it
    let other = OrderMessageDecoder::default().wrap(ReadBuf::new(&buffer), 8, 25, 0);
    assert!(!other.carries_since(1));
    assert!(order.carries_since(1));
}

#[test]
fn round_trip_of_the_largest_values_and_an_empty_order() {
    let mut buffer = [0xaau8; 128];
    let lines = [
        Line { product_id: u32::MAX, quantity: u16::MAX, mantissa: i64::MIN },
        Line { product_id: 0, quantity: 0, mantissa: i64::MAX },
        Line { product_id: 7, quantity: 9, mantissa: -1 },
    ];
    let end = write_order(&mut buffer, (u64::MAX, 0, 1 << 63), OrderType::NullVal, &lines, "é");
    assert_eq!(end, 8 + 25 + 3 + 3 * 14 + 2 + 2);
    assert!(buffer[end..].iter().all(|b| *b == 0xaa));
    let order = open_order(&buffer);
    assert_eq!(order.order_id(), u64::MAX);
    assert_eq!(order.client_id(), 0);
    assert_eq!(order.timestamp(), 1 << 63);
    assert_eq!(order.order_type(), OrderType::NullVal);
    let (lines, mut order) = read_lines(order);
    assert_eq!(
        lines,
        vec![(u32::MAX, u16::MAX, i64::MIN), (0, 0, i64::MAX), (7, 9, -1)]
    );
    let coordinates = order.customer_note_decoder();
    assert_eq!(order.customer_note_slice(coordinates), "é".as_bytes());

    let mut buffer = [0xaau8; 64];
    let end = write_order(&mut buffer, (5, 6, 7), OrderType::New, &[], "");
    assert_eq!(end, 8 + 25 + 3 + 2);
    let (lines, mut order) = read_lines(open_order(&buffer));
    assert!(lines.is_empty());
    assert_eq!(order.customer_note_decoder(), (38, 0));
    assert_eq!(order.customer_note_slice((38, 0)), b"");
}

#[test]
fn the_limit_stands_behind_what_was_written() {
    let mut buffer = [0u8; 256];
    let mut order = OrderMessageEncoder::default().wrap(WriteBuf::new(&mut buffer), 10);
    assert_eq!(order.get_limit(), 35);
    assert_eq!(order.encoded_length(), 25);
    order.order_id(1);
    order.client_id(2);
    order.timestamp(3);
    order.order_type(OrderType::New);
    assert_eq!(order.encoded_length(), 25);
    let mut items = order.items_encoder(2, ItemsEncoder::default());
    assert_eq!(items.get_limit(), 38);
    assert_eq!(items.advance(), Ok(Some(0)));
    assert_eq!(items.get_limit(), 52);
    items.product_id(1);
    items.quantity(1);
    let mut price = items.unit_price_encoder();
    price.mantissa(1);
    items = price.parent().unwrap();
    assert_eq!(items.get_limit(), 52);
    assert_eq!(items.advance(), Ok(Some(1)));
    assert_eq!(items.get_limit(), 66);
    assert_eq!(items.advance(), Ok(None));
    assert_eq!(items.get_limit(), 66);
    assert_eq!(items.advance(), Ok(None));
    assert_eq!(items.get_limit(), 66);
    order = items.parent().unwrap();
    assert_eq!(order.encoded_length(), 56);
    order.customer_note("abc");
    assert_eq!(order.get_limit(), 71);
    assert_eq!(order.encoded_length(), 61);
    order.set_limit(40);
    assert_eq!(order.get_limit(), 40);
}

#[test]
fn a_note_takes_two_bytes_more_than_its_text() {
    for len in [0usize, 1, 13, 255, 256, 65535] {
        let text = "x".repeat(len);
        let mut buffer = vec![0u8; 8 + 25 + 3 + 2 + len + 5];
        let mut order = OrderMessageEncoder::default().wrap(WriteBuf::new(&mut buffer), 8);
        let mut items = order.items_encoder(0, ItemsEncoder::default());
        order = items.parent().unwrap();
        let before = order.get_limit();
        order.customer_note(&text);
        assert_eq!(order.get_limit(), before + 2 + len);
        assert_eq!(buffer[before], (len % 256) as u8);
        assert_eq!(buffer[before + 1], (len / 256) as u8);
        assert_eq!(&buffer[before + 2..before + 2 + len], text.as_bytes());
        assert_eq!(&buffer[before + 2 + len..], &[0u8; 5]);

        let mut order = OrderMessageDecoder::default().wrap(ReadBuf::new(&buffer), 8, 25, 0);
        let mut items = order.items_decoder();
        order = items.parent().unwrap();
        assert_eq!(order.get_limit(), before);
        let (offset, length) = order.customer_note_decoder();
        assert_eq!((offset, length), (before + 2, len));
        assert_eq!(order.get_limit(), before + 2 + len);
        assert_eq!(order.customer_note_slice((offset, length)), text.as_bytes());
    }
}

#[test]
fn a_longer_block_of_a_later_version_is_skipped() {
    let mut buffer = [0u8; 128];
    let lines = [Line { product_id: 11, quantity: 12, mantissa: 13 }];
    let end = write_order(&mut buffer, (1, 2, 3), OrderType::New, &lines, "n");
    // the same message with four unknown bytes at the end of its block
    let mut longer = [0u8; 128];
    longer[..33].copy_from_slice(&buffer[..33]);
    longer[0] = 29;
    longer[33..37].copy_from_slice(&[9, 9, 9, 9]);
    longer[37..end + 4].copy_from_slice(&buffer[33..end]);
    let order = open_order(&longer);
    assert_eq!(order.acting_block_length, 29);
    assert_eq!(order.get_limit(), 37);
    assert_eq!(order.order_id(), 1);
    let (lines, mut order) = read_lines(order);
    assert_eq!(lines, vec![(11, 12, 13)]);
    let coordinates = order.customer_note_decoder();
    assert_eq!(order.customer_note_slice(coordinates), b"n");
    assert_eq!(order.validate(), Ok(end - 8 + 4));
}

#[test]
fn a_group_yields_as_many_entries_as_it_declares() {
    for count in [0u8, 1, 3, 255] {
        let mut buffer = vec![0u8; 8 + 25 + 3 + 14 * count as usize + 2];
        let order = OrderMessageEncoder::default().wrap(WriteBuf::new(&mut buffer), 8);
        let mut items = order.items_encoder(count, ItemsEncoder::default());
        for i in 0..count as usize {
            assert_eq!(items.advance(), Ok(Some(i)));
        }
        for _ in 0..3 {
            assert_eq!(items.advance(), Ok(None));
        }
        let mut order = items.parent().unwrap();
        order.customer_note("");

        let order = OrderMessageDecoder::default().wrap(ReadBuf::new(&buffer), 8, 25, 0);
        let mut items: ItemsDecoder<OrderMessageDecoder> = order.items_decoder();
        assert_eq!(items.count(), count);
        for i in 0..count as usize {
            assert_eq!(items.advance(), Ok(Some(i)));
            assert_eq!(items.get_limit(), 36 + 14 * (i + 1));
        }
        for _ in 0..3 {
            assert_eq!(items.advance(), Ok(None));
            assert_eq!(items.get_limit(), 36 + 14 * count as usize);
        }
    }
}

#[test]
fn a_cursor_is_handed_back_once() {
    let mut buffer = [0u8; 128];
    let order = OrderMessageEncoder::default().wrap(WriteBuf::new(&mut buffer), 8);
    let mut header = order.header(0);
    let order = header.parent().unwrap();
    assert_eq!(header.parent().err(), Some(SbeErr::ParentNotSet));
    let mut items = order.items_encoder(2, ItemsEncoder::default());
    assert_eq!(items.advance(), Ok(Some(0)));
    let mut price = items.unit_price_encoder();
    let mut items = price.parent().unwrap();
    assert_eq!(price.parent().err(), Some(SbeErr::ParentNotSet));
    let order = items.parent().unwrap();
    assert_eq!(items.parent().err(), Some(SbeErr::ParentNotSet));
    // one entry is left, but nothing is held to write it through
    assert_eq!(items.advance(), Err(SbeErr::ParentNotSet));
    assert_eq!(items.advance(), Err(SbeErr::ParentNotSet));
    assert_eq!(order.get_limit(), 50);

    let order = OrderMessageDecoder::default().wrap(ReadBuf::new(&buffer), 8, 25, 0);
    let mut items = order.items_decoder();
    assert_eq!(items.advance(), Ok(Some(0)));
    let mut price = items.unit_price_decoder();
    let mut items = price.parent().unwrap();
    assert_eq!(price.parent().err(), Some(SbeErr::ParentNotSet));
    assert!(items.parent().is_ok());
    assert_eq!(items.parent().err(), Some(SbeErr::ParentNotSet));
    assert_eq!(items.advance(), Err(SbeErr::ParentNotSet));
    assert_eq!(items.count(), 2);
    assert_eq!(items.acting_version(), 0);

    // at the end of the group nothing is needed to say so
    let order = OrderMessageDecoder::default().wrap(ReadBuf::new(&buffer), 8, 25, 0);
    let mut items = order.items_decoder();
    assert_eq!(items.advance(), Ok(Some(0)));
    assert_eq!(items.advance(), Ok(Some(1)));
    assert!(items.parent().is_ok());
    assert_eq!(items.advance(), Ok(None));
}
