use sales::{
    message_header_codec::{self, MessageHeaderDecoder},
    order_message_codec::{encoder::ItemsEncoder, OrderMessageDecoder, OrderMessageEncoder},
    Encoder, ReadBuf, WriteBuf,
};

#[test]
fn demo_test_simple() {
    // ****** BUFFER ******
    let mut buffer = [0u8; 512];

    // ****** ENCODE *******
    let mut order = OrderMessageEncoder::default().wrap(
        WriteBuf::new(&mut buffer),
        message_header_codec::ENCODED_LENGTH,
    );
    // the header gets block length, version, schema and template id by itself
    order = order.header(0).parent().unwrap();

    order.order_id(234);
    order.client_id(135);
    order.timestamp(246);
    order.order_type(sales::order_type::OrderType::New);

    let mut items = order.items_encoder(2, ItemsEncoder::default());

    let _r = items.advance();
    items.product_id(222);
    items.quantity(2);
    let mut price = items.unit_price_encoder();
    price.mantissa(2345); // the exponent is -2 (two decimals), fixed by the schema
    items = price.parent().unwrap();

    let _r = items.advance();
    items.product_id(333);
    items.quantity(3);
    let mut price = items.unit_price_encoder();
    price.mantissa(4567); // the exponent is -2 (two decimals), fixed by the schema
    items = price.parent().unwrap();

    order = items.parent().unwrap();

    order.customer_note("duck is angry");

    let encoded_len = order.get_limit() as usize;
    let dbg_buffer = &buffer[..encoded_len];
    println!("{:?}", dbg_buffer);
    assert_eq!(encoded_len, 79);

    // ****** DECODE ******
    let mut header = MessageHeaderDecoder::default();
    let read_buf = ReadBuf::new(&buffer);
    header = header.wrap(read_buf, 0);

    let block_length = header.block_length();
    let version = header.version();
    let template_id = header.template_id(); // the template id tells which kind of message it is

    println!("template_id = {template_id}, block_length = {block_length}, version = {version}");

    let mut order = OrderMessageDecoder::default();
    order = order.wrap(
        read_buf,
        message_header_codec::ENCODED_LENGTH,
        block_length,
        version,
    );

    println!(
        "order_id = {}, client_id = {}, timestamp = {} order_type = {}",
        order.order_id(),
        order.client_id(),
        order.timestamp(),
        order.order_type().name()
    );

    let mut items = order.items_decoder();

    let count = items.count();
    assert_eq!(count, 2);
    let expected = [(222u32, 2u16, 2345i64), (333, 3, 4567)];

    for i in 1..=count {
        let _r = items.advance();
        let product_id = items.product_id();
        let qty = items.quantity();
        let mut price = items.unit_price_decoder();
        let exponent = price.exponent();
        let mantissa = price.mantissa();
        println!("{i}. product_id = {product_id}, qty = {qty}, price = {mantissa} x 10^{exponent}");
        assert_eq!((product_id, qty, mantissa), expected[i as usize - 1]);
        assert_eq!(exponent, -2);
        items = price.parent().unwrap();
    }
    order = items.parent().unwrap();

    let (offset, len) = order.customer_note_decoder();
    let bytes = &buffer[offset..offset + len];
    let note = std::str::from_utf8(bytes).unwrap();
    println!("customer_note = {:?}", note);
    assert_eq!(note, "duck is angry");
}
