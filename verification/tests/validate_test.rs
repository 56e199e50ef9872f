use sales::message_header_codec::ENCODED_LENGTH;
use sales::order_message_codec::encoder::ItemsEncoder;
use sales::order_message_codec::{OrderMessageDecoder, OrderMessageEncoder};
use sales::order_type::OrderType;
use sales::{Decoder, ReadBuf, SbeErr, WriteBuf};

fn message(count: u8, note: &str) -> Vec<u8> {
    let mut buffer = vec![0u8; 8 + 25 + 3 + 14 * count as usize + 2 + note.len()];
    let mut order = OrderMessageEncoder::default().wrap(WriteBuf::new(&mut buffer), ENCODED_LENGTH);
    order = order.header(0).parent().unwrap();
    order.order_id(234);
    order.client_id(135);
    order.timestamp(246);
    order.order_type(OrderType::Cancel);
    let mut items = order.items_encoder(count, ItemsEncoder::default());
    while let Ok(Some(index)) = items.advance() {
        items.product_id(index as u32);
        items.quantity(2);
    }
    order = items.parent().unwrap();
    order.customer_note(note);
    buffer
}

fn validate(bytes: &[u8], block_length: u16) -> Result<usize, SbeErr> {
    OrderMessageDecoder::default().wrap(ReadBuf::new(bytes), 8, block_length, 0).validate()
}

#[test]
fn a_whole_message_is_accepted_with_its_length() {
    assert_eq!(validate(&message(1, "duck is angry"), 25), Ok(57));
    assert_eq!(validate(&message(0, ""), 25), Ok(30));
    assert_eq!(validate(&message(255, "x"), 25), Ok(25 + 3 + 255 * 14 + 3));
    let mut longer = message(2, "abc");
    longer.extend_from_slice(&[1, 2, 3]);
    assert_eq!(validate(&longer, 25), Ok(25 + 3 + 28 + 5));
}

#[test]
fn a_message_cut_off_anywhere_is_refused() {
    let whole = message(2, "duck is angry");
    assert_eq!(validate(&whole, 25), Ok(whole.len() - 8));
    for len in 0..whole.len() {
        assert_eq!(validate(&whole[..len], 25), Err(SbeErr::Truncated), "cut at {len}");
    }
}

#[test]
fn a_declared_size_that_the_region_does_not_hold_is_refused() {
    let whole = message(2, "duck");
    let mut more_entries = whole.clone();
    more_entries[35] = 3;
    assert_eq!(validate(&more_entries, 25), Err(SbeErr::Truncated));
    let mut longer_entries = whole.clone();
    longer_entries[33] = 17;
    assert_eq!(validate(&longer_entries, 25), Err(SbeErr::Truncated));
    let mut longer_note = whole.clone();
    longer_note[64] = 5;
    assert_eq!(validate(&longer_note, 25), Err(SbeErr::Truncated));
    let mut huge_note = whole.clone();
    huge_note[65] = 0xff;
    assert_eq!(validate(&huge_note, 25), Err(SbeErr::Truncated));
    assert_eq!(validate(&whole, u16::MAX), Err(SbeErr::Truncated));
    let past_the_end = OrderMessageDecoder::default().wrap(ReadBuf::new(&whole), 500, 25, 0);
    assert_eq!(past_the_end.validate(), Err(SbeErr::Truncated));
}

#[test]
fn a_block_too_short_for_its_fields_is_refused() {
    let whole = message(1, "");
    assert_eq!(validate(&whole, 24), Err(SbeErr::Truncated));
    assert_eq!(validate(&whole, 0), Err(SbeErr::Truncated));
    let mut short_entries = message(1, "");
    short_entries[33] = 13;
    assert_eq!(validate(&short_entries, 25), Err(SbeErr::Truncated));
    // with no entries their declared length does not matter
    let mut none = message(0, "ab");
    none[33] = 0;
    assert_eq!(validate(&none, 25), Ok(32));
}

#[test]
fn the_errors_are_told_apart() {
    assert_ne!(SbeErr::Truncated, SbeErr::ParentNotSet);
    assert_eq!(format!("{:?}", SbeErr::Truncated), "Truncated");
    assert_eq!(format!("{:?}", SbeErr::ParentNotSet), "ParentNotSet");
}

#[test]
fn a_pass_over_an_accepted_message_stays_inside_the_region() {
    let mut seed: u64 = 0x2545_f491_4f6c_dd1d;
    let mut next = move || {
        seed ^= seed << 13;
        seed ^= seed >> 7;
        seed ^= seed << 17;
        seed
    };
    let mut accepted = 0;
    for round in 0..4000 {
        let len = (next() % 200) as usize;
        let mut bytes: Vec<u8> = (0..len).map(|_| next() as u8).collect();
        let block_length = if round % 2 == 0 { 25 + (next() % 4) as u16 } else { next() as u16 };
        let start = (next() % 12) as usize;
        // keep the declared sizes small in most rounds, so that some messages fit
        let group = start + block_length as usize;
        if round % 3 != 0 && group + 3 <= len {
            bytes[group] = 14 + (next() % 3) as u8;
            bytes[group + 1] = 0;
            bytes[group + 2] = (next() % 5) as u8;
            let note = group + 3 + bytes[group] as usize * bytes[group + 2] as usize;
            if note + 2 <= len {
                bytes[note] = (next() % 20) as u8;
                bytes[note + 1] = 0;
            }
        }
        let order =
            OrderMessageDecoder::default().wrap(ReadBuf::new(&bytes), start, block_length, 0);
        let Ok(length) = order.validate() else {
            continue;
        };
        accepted += 1;
        assert!(start + length <= len);
        let _ = (order.order_id(), order.client_id(), order.timestamp(), order.order_type());
        let mut items = order.items_decoder();
        let count = items.count();
        for index in 0..count as usize {
            assert_eq!(items.advance(), Ok(Some(index)));
            let _ = (items.product_id(), items.quantity());
            let mut price = items.unit_price_decoder();
            let _ = price.mantissa();
            items = price.parent().unwrap();
        }
        assert_eq!(items.advance(), Ok(None));
        let mut order = items.parent().unwrap();
        let coordinates = order.customer_note_decoder();
        assert_eq!(order.customer_note_slice(coordinates).len(), coordinates.1);
        assert_eq!(order.get_limit(), start + length);
        assert_eq!(order.encoded_length(), length);
    }
    assert!(accepted > 100, "only {accepted} messages were accepted");
}
