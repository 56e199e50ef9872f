use sales::decimal_codec::{self, DecimalDecoder, DecimalEncoder};
use sales::message_header_codec::{self, MessageHeaderDecoder, MessageHeaderEncoder};
use sales::order_message_codec::encoder::ItemsEncoder;
use sales::order_message_codec::{
    OrderMessageDecoder, OrderMessageEncoder, ITEM_BLOCK_LENGTH, SBE_BLOCK_LENGTH, SBE_SCHEMA_ID,
    SBE_SCHEMA_VERSION, SBE_TEMPLATE_ID,
};
use sales::{ActingVersion, Decoder, Encoder, ReadBuf, SbeErr, WriteBuf, Writer};

#[test]
fn the_constants_of_the_schema() {
    assert_eq!(message_header_codec::ENCODED_LENGTH, 8);
    assert_eq!(decimal_codec::ENCODED_LENGTH, 8);
    assert_eq!(decimal_codec::EXPONENT, -2);
    assert_eq!(SBE_BLOCK_LENGTH, 25);
    assert_eq!(SBE_TEMPLATE_ID, 1);
    assert_eq!(ITEM_BLOCK_LENGTH, 14);
    assert_eq!(ItemsEncoder::<OrderMessageEncoder>::block_length(), 14);
    assert_eq!(SBE_SCHEMA_ID, sales::SBE_SCHEMA_ID);
    assert_eq!(SBE_SCHEMA_VERSION, sales::SBE_SCHEMA_VERSION);
}

#[test]
fn a_header_is_four_numbers_of_two_bytes() {
    let mut buffer = [0xffu8; 16];
    let order = OrderMessageEncoder::default().wrap(WriteBuf::new(&mut buffer), 12);
    let mut header = MessageHeaderEncoder::default().wrap(order, 3);
    header.block_length(0x0102);
    header.template_id(0x0304);
    header.schema_id(0x0506);
    header.version(0x0708);
    let order = header.parent().unwrap();
    assert_eq!(order.get_limit(), 37);
    assert_eq!(
        buffer,
        [0xff, 0xff, 0xff, 2, 1, 4, 3, 6, 5, 8, 7, 0xff, 0xff, 0xff, 0xff, 0xff]
    );

    let mut header = MessageHeaderDecoder::default().wrap(ReadBuf::new(&buffer), 3);
    assert_eq!(header.block_length(), 0x0102);
    assert_eq!(header.template_id(), 0x0304);
    assert_eq!(header.schema_id(), 0x0506);
    assert_eq!(header.version(), 0x0708);
    assert_eq!(header.acting_version(), SBE_SCHEMA_VERSION);
    assert!(header.parent().is_ok());
    assert_eq!(header.parent().err(), Some(SbeErr::ParentNotSet));
}

#[test]
fn the_header_of_an_order_names_its_block_and_its_kind() {
    let mut buffer = [0xffu8; 40];
    let order = OrderMessageEncoder::default().wrap(WriteBuf::new(&mut buffer), 10);
    let order = order.header(2).parent().unwrap();
    assert_eq!(order.get_limit(), 35);
    assert_eq!(&buffer[..12], &[0xff, 0xff, 25, 0, 1, 0, 1, 0, 0, 0, 0xff, 0xff]);
    assert!(buffer[12..].iter().all(|b| *b == 0xff));
}

#[test]
fn a_decoder_takes_block_length_and_version_from_the_header() {
    let mut buffer = [0u8; 64];
    buffer[5..13].copy_from_slice(&[30, 0, 1, 0, 1, 0, 4, 0]);
    buffer[13] = 77;
    let header = MessageHeaderDecoder::default().wrap(ReadBuf::new(&buffer), 5);
    let order = OrderMessageDecoder::default().header(header, 5);
    assert_eq!(order.acting_block_length, 30);
    assert_eq!(order.acting_version, 4);
    assert_eq!(order.acting_version(), 4);
    assert_eq!(order.get_limit(), 5 + 8 + 30);
    assert_eq!(order.encoded_length(), 30);
    assert_eq!(order.order_id(), 77);
}

#[test]
fn a_decimal_is_a_mantissa_of_eight_bytes() {
    let mut buffer = [0u8; 32];
    let order = OrderMessageEncoder::default().wrap(WriteBuf::new(&mut buffer), 0);
    let mut price = DecimalEncoder::default().wrap(order, 20);
    price.mantissa(-4567);
    let mut order = price.parent().unwrap();
    assert_eq!(order.get_limit(), 25);
    order.get_buf_mut().put_u8_at(31, 1);
    assert_eq!(&buffer[20..28], &(-4567i64).to_le_bytes());
    assert_eq!(&buffer[..20], &[0u8; 20]);
    assert_eq!(&buffer[28..], &[0, 0, 0, 1]);

    let order = OrderMessageDecoder::default().wrap(ReadBuf::new(&buffer), 0, 25, 9);
    let mut price = DecimalDecoder::default().wrap(order, 20);
    assert_eq!(price.mantissa(), -4567);
    assert_eq!(price.exponent(), -2);
    assert_eq!(price.acting_version(), 9);
    let order = price.parent().unwrap();
    assert_eq!(order.get_limit(), 25);
    assert_eq!(price.parent().err(), Some(SbeErr::ParentNotSet));
    assert_eq!(price.acting_version(), 9);
}
