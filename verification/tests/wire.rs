use kharbranth::wire::{FrameHeader, OpCode, RawFrame, WireMessage};
use tokio_tungstenite::tungstenite::protocol::frame::coding::{
    Data, OpCode as TungsteniteOpCode,
};
use tokio_tungstenite::tungstenite::protocol::frame::{
    Frame, FrameHeader as TungsteniteFrameHeader,
};

fn header(mask: Option<[u8; 4]>) -> FrameHeader {
    FrameHeader { is_final: true, rsv1: false, rsv2: false, rsv3: false, opcode: OpCode::Text, mask }
}

#[test]
fn a_raw_frame_counts_its_header() {
    for (payload_len, len) in
        vec![(0, 2), (125, 127), (126, 130), (65535, 65539), (65536, 65546), (70000, 70010)]
    {
        let plain = RawFrame { header: header(None), payload: vec![0; payload_len] };
        assert_eq!(plain.len(), len);
        assert_eq!(WireMessage::Frame(plain).len(), len);
        let masked = RawFrame { header: header(Some([1, 2, 3, 4])), payload: vec![0; payload_len] };
        assert_eq!(masked.len(), len + 4);
    }
}

#[test]
fn a_raw_frame_is_as_long_as_what_is_sent() {
    for payload_len in vec![0, 1, 125, 126, 65535, 65536] {
        for mask in vec![None, Some([9, 8, 7, 6])] {
            let sent = Frame::from_payload(
                TungsteniteFrameHeader {
                    is_final: true,
                    rsv1: false,
                    rsv2: false,
                    rsv3: false,
                    opcode: TungsteniteOpCode::Data(Data::Text),
                    mask,
                },
                vec![5; payload_len].into(),
            );
            let raw = RawFrame { header: header(mask), payload: vec![5; payload_len] };
            assert_eq!(raw.len(), sent.len() as u128);
        }
    }
}

#[test]
fn a_copied_raw_frame_keeps_header_and_payload() {
    let raw = RawFrame {
        header: FrameHeader {
            is_final: false,
            rsv1: true,
            rsv2: false,
            rsv3: true,
            opcode: OpCode::ReservedControl(11),
            mask: Some([1, 2, 3, 4]),
        },
        payload: vec![1, 2],
    };
    let copy = raw.clone();
    assert!(!copy.header.is_final && copy.header.rsv1 && !copy.header.rsv2 && copy.header.rsv3);
    assert_eq!(copy.header.opcode, OpCode::ReservedControl(11));
    assert_eq!(copy.header.mask, Some([1, 2, 3, 4]));
    assert_eq!(copy.payload, vec![1, 2]);
}
