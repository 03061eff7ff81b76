use canopen::{EncodedCANOpenFrame, EntryId, FrameId, NodeId, SDOCoder, SDORole, SdoAbortCode,
    SdoFrame};
use heapless::Vec;

fn frame(std_id: u16, data: &[u8]) -> EncodedCANOpenFrame {
    EncodedCANOpenFrame::new(FrameId::Standard(std_id), data).unwrap()
}

// Receive decoding tests

#[test]
fn test_rx_decode_wrong_node_id() {
    let frame = frame(0x606, &[2 << 5, 0x00, 0x20, 0x01, 0, 0, 0, 0]);
    let decoded = SDOCoder::try_decode_rx_frame(NodeId::new(5).unwrap(), SDORole::Server, &frame);
    assert!(decoded.is_none());
}

#[test]
fn test_rx_decode_wrong_frame_offset() {
    let frame = frame(0x585, &[2 << 5, 0x00, 0x20, 0x01, 0, 0, 0, 0]);
    let decoded = SDOCoder::try_decode_rx_frame(NodeId::new(5).unwrap(), SDORole::Server, &frame);
    assert!(decoded.is_none());
}

#[test]
fn test_rx_decode_exp_dl_req() {
    let frame = frame(
        0x605,
        &[(1 << 5) + (1 << 1) + 1, 0x00, 0x20, 0x01, 0x1, 0x2, 0x3, 0x4],
    );
    let decoded = SDOCoder::try_decode_rx_frame(NodeId::new(5).unwrap(), SDORole::Server, &frame);
    assert!(decoded.is_some());
    let sdo = decoded.unwrap();
    assert_eq!(
        sdo,
        SdoFrame::ExpeditedDownloadRequest {
            id: EntryId::new(0x2000, 0x1),
            payload: Vec::from_slice(&[0x1, 0x2, 0x3, 0x4]).unwrap()
        }
    )
}

#[test]
fn test_rx_decode_seg_dl_init_req() {
    let frame = frame(0x605, &[(1 << 5) + 1, 0x00, 0x20, 0x01, 0x1, 0x2, 0x3, 0x4]);
    let decoded = SDOCoder::try_decode_rx_frame(NodeId::new(5).unwrap(), SDORole::Server, &frame);
    assert!(decoded.is_some());
    let sdo = decoded.unwrap();
    assert_eq!(
        sdo,
        SdoFrame::SegmentedDownloadInitiateRequest {
            id: EntryId::new(0x2000, 0x1),
            size: 0x04030201
        }
    )
}

#[test]
fn test_rx_decode_exp_dl_resp() {
    let frame = frame(0x605, &[3 << 5, 0x00, 0x20, 0x1, 0x0, 0x0, 0x0, 0x0]);
    let decoded = SDOCoder::try_decode_rx_frame(NodeId::new(5).unwrap(), SDORole::Client, &frame);
    assert!(decoded.is_some());
    let sdo = decoded.unwrap();
    assert_eq!(
        sdo,
        SdoFrame::DownloadInitiateResponse {
            id: EntryId::new(0x2000, 0x1)
        }
    );
}

#[test]
fn test_rx_decode_dl_seg_req() {
    let mut f = frame(
        0x605,
        &[
            (0 << 5) + (1 << 4) + (3 << 1) + 1,
            0x00,
            0x20,
            0x01,
            0x55,
            0x99,
            0x99,
            0x99,
        ],
    );
    let mut decoded = SDOCoder::try_decode_rx_frame(NodeId::new(5).unwrap(), SDORole::Server, &f);
    assert!(decoded.is_some());
    let mut sdo = decoded.unwrap();
    assert_eq!(
        sdo,
        SdoFrame::SegmentedDownloadRequest {
            toggle: true,
            last: true,
            payload: Vec::from_slice(&[0x00, 0x20, 0x01, 0x55]).unwrap()
        }
    );

    f = frame(
        0x605,
        &[
            (0 << 5) + (0 << 4) + (2 << 1) + 0,
            0x00,
            0x20,
            0x01,
            0x55,
            0x67,
            0x99,
            0x99,
        ],
    );
    decoded = SDOCoder::try_decode_rx_frame(NodeId::new(5).unwrap(), SDORole::Server, &f);
    assert!(decoded.is_some());
    sdo = decoded.unwrap();
    assert_eq!(
        sdo,
        SdoFrame::SegmentedDownloadRequest {
            toggle: false,
            last: false,
            payload: Vec::from_slice(&[0x00, 0x20, 0x01, 0x55, 0x67]).unwrap()
        }
    )
}

#[test]
fn test_rx_decode_dl_seg_resp() {
    let f = frame(
        0x605,
        &[(1 << 5) + (1 << 4), 0x00, 0x00, 0x00, 0x00, 0x00, 0x00, 0x00],
    );
    let decoded = SDOCoder::try_decode_rx_frame(NodeId::new(5).unwrap(), SDORole::Client, &f);
    assert!(decoded.is_some());
    let sdo = decoded.unwrap();
    assert_eq!(sdo, SdoFrame::SegmentedDownloadResponse { toggle: true });
}

#[test]
fn test_rx_decode_upload_req() {
    let f = frame(0x605, &[2 << 5, 0x00, 0x20, 0x01, 0, 0, 0, 0]);
    let decoded = SDOCoder::try_decode_rx_frame(NodeId::new(5).unwrap(), SDORole::Server, &f);
    assert!(decoded.is_some());
    let sdo = decoded.unwrap();
    assert_eq!(
        sdo,
        SdoFrame::UploadRequest {
            id: EntryId::new(0x2000, 0x01)
        }
    )
}

#[test]
fn test_rx_upload_init_exp_resp() {
    let f = frame(
        0x605,
        &[
            (2 << 5) + (1 << 2) + (1 << 1) + 1,
            0x00,
            0x20,
            0x01,
            0x55,
            0x99,
            0x88,
            0x77,
        ],
    );
    let decoded = SDOCoder::try_decode_rx_frame(NodeId::new(5).unwrap(), SDORole::Client, &f);
    assert!(decoded.is_some());
    let sdo = decoded.unwrap();
    assert_eq!(
        sdo,
        SdoFrame::ExpeditedUploadResponse {
            id: EntryId::new(0x2000, 0x01),
            payload: Vec::from_slice(&[0x55, 0x99, 0x88]).unwrap()
        }
    );
}

#[test]
fn test_rx_upload_init_seg_resp() {
    let f = frame(
        0x605,
        &[
            (2 << 5) + (1 << 2) + (0 << 1) + 1,
            0x00,
            0x20,
            0x01,
            0x55,
            0x99,
            0x88,
            0x77,
        ],
    );
    let decoded = SDOCoder::try_decode_rx_frame(NodeId::new(5).unwrap(), SDORole::Client, &f);
    assert!(decoded.is_some());
    let sdo = decoded.unwrap();
    assert_eq!(
        sdo,
        SdoFrame::SegmentedUploadInitiateResponse {
            id: EntryId::new(0x2000, 0x01),
            size: 0x77889955
        }
    );
}

#[test]
fn test_rx_decode_upload_seg_req() {
    let f = frame(
        0x605,
        &[(3 << 5) + (1 << 4), 0x00, 0x00, 0x00, 0x00, 0x00, 0x00, 0x00],
    );
    let decoded = SDOCoder::try_decode_rx_frame(NodeId::new(5).unwrap(), SDORole::Server, &f);
    assert!(decoded.is_some());
    let sdo = decoded.unwrap();
    assert_eq!(sdo, SdoFrame::SegmentedUploadRequest { toggle: true });

    let frame_no_toggle = frame(
        0x605,
        &[(3 << 5) + (0 << 4), 0x00, 0x00, 0x00, 0x00, 0x00, 0x00, 0x00],
    );
    let decoded =
        SDOCoder::try_decode_rx_frame(NodeId::new(5).unwrap(), SDORole::Server, &frame_no_toggle);
    assert!(decoded.is_some());
    let sdo = decoded.unwrap();
    assert_eq!(sdo, SdoFrame::SegmentedUploadRequest { toggle: false })
}

#[test]
fn test_rx_decode_upload_seg_resp() {
    let f = frame(
        0x605,
        &[
            (0 << 5) + (1 << 4) + (1 << 1) + 0,
            0x00,
            0x20,
            0x01,
            0x55,
            0x99,
            0x88,
            0x77,
        ],
    );
    let decoded = SDOCoder::try_decode_rx_frame(NodeId::new(5).unwrap(), SDORole::Client, &f);
    assert!(decoded.is_some());
    let sdo = decoded.unwrap();
    assert_eq!(
        sdo,
        SdoFrame::SegmentedUploadResponse {
            toggle: true,
            last: false,
            payload: Vec::from_slice(&[0x00, 0x20, 0x01, 0x55, 0x99, 0x88]).unwrap()
        }
    );
}

#[test]
fn test_rx_decode_client_abort() {
    let f = frame(0x605, &[4 << 5, 0x00, 0x20, 0x05, 0x05, 0x00, 0x04, 0x05]);
    let mut decoded = SDOCoder::try_decode_rx_frame(NodeId::new(5).unwrap(), SDORole::Server, &f);
    assert!(decoded.is_some());
    let sdo = decoded.unwrap();
    assert_eq!(
        sdo,
        SdoFrame::Abort {
            id: EntryId::new(0x2000, 0x5),
            code: SdoAbortCode::OutOfMemory
        }
    );

    decoded = SDOCoder::try_decode_rx_frame(NodeId::new(5).unwrap(), SDORole::Client, &f);
    assert!(decoded.is_some());
    let sdo = decoded.unwrap();
    assert_eq!(
        sdo,
        SdoFrame::Abort {
            id: EntryId::new(0x2000, 0x5),
            code: SdoAbortCode::OutOfMemory
        }
    );
}

// Transmit encoding tests

#[test]
fn test_tx_exp_dl_req() {
    let tx_id = FrameId::Standard(0x585);
    let encoded = SDOCoder::encode_tx_frame(
        tx_id,
        SdoFrame::ExpeditedDownloadRequest {
            id: EntryId::new(0x2000, 0x20),
            payload: Vec::from_slice(&[0x5, 0x10]).unwrap(),
        },
    );

    assert_eq!(encoded.id(), tx_id);
    assert_eq!(encoded.dlc(), 8);
    assert_eq!(
        encoded.data(),
        &[
            (1 << 5) + (2 << 2) + (1 << 1) + 1,
            0x00,
            0x20,
            0x20,
            0x5,
            0x10,
            0x0,
            0x0
        ]
    );
}

#[test]
fn test_tx_encode_seg_dl_init_req() {
    let tx_id = FrameId::Standard(0x585);
    let encoded = SDOCoder::encode_tx_frame(
        tx_id,
        SdoFrame::SegmentedDownloadInitiateRequest {
            id: EntryId::new(0x2000, 0x2),
            size: 0x12345678,
        },
    );

    assert_eq!(encoded.id(), tx_id);
    assert_eq!(encoded.dlc(), 8);
    assert_eq!(
        encoded.data(),
        &[
            (1 << 5) + (0 << 2) + (0 << 1) + 1,
            0x00,
            0x20,
            0x2,
            0x78,
            0x56,
            0x34,
            0x12
        ]
    )
}

#[test]
fn test_tx_encode_exp_dl_resp() {
    let tx_id = FrameId::Standard(0x585);
    let encoded = SDOCoder::encode_tx_frame(
        tx_id,
        SdoFrame::DownloadInitiateResponse {
            id: EntryId::new(0x2000, 0x5),
        },
    );
    assert_eq!(encoded.id(), tx_id);
    assert_eq!(encoded.dlc(), 8);
    assert_eq!(encoded.data(), &[(3 << 5), 0x00, 0x20, 0x05, 0, 0, 0, 0]);
}

#[test]
fn test_tx_encode_dl_seg_req() {
    let tx_id = FrameId::Standard(0x585);
    let encoded = SDOCoder::encode_tx_frame(
        tx_id,
        SdoFrame::SegmentedDownloadRequest {
            toggle: true,
            last: false,
            payload: Vec::from_slice(&[0x1, 0x2, 0x3, 0x4, 0x5, 0x6]).unwrap(),
        },
    );

    assert_eq!(encoded.id(), tx_id);
    assert_eq!(encoded.dlc(), 8);
    assert_eq!(
        encoded.data(),
        &[
            (0 << 5) + (1 << 4) + (1 << 1) + 0,
            0x1,
            0x2,
            0x3,
            0x4,
            0x5,
            0x6,
            0x0
        ]
    );
}

#[test]
fn test_tx_encode_upload_req() {
    let tx_id = FrameId::Standard(0x585);
    let encoded = SDOCoder::encode_tx_frame(
        tx_id,
        SdoFrame::UploadRequest {
            id: EntryId::new(0x2000, 0x10),
        },
    );

    assert_eq!(encoded.id(), tx_id);
    assert_eq!(encoded.dlc(), 8);
    assert_eq!(encoded.data(), &[(2 << 5), 0x00, 0x20, 0x10, 0x0, 0x0, 0x0, 0x0]);
}

#[test]
fn test_tx_encode_exp_upload_resp() {
    let tx_id = FrameId::Standard(0x585);
    let encoded = SDOCoder::encode_tx_frame(
        tx_id,
        SdoFrame::ExpeditedUploadResponse {
            id: EntryId::new(0x2000, 0x02),
            payload: Vec::from_slice(&[0x1, 0x9]).unwrap(),
        },
    );

    assert_eq!(encoded.id(), tx_id);
    assert_eq!(encoded.dlc(), 8);
    assert_eq!(
        encoded.data(),
        &[
            (2 << 5) + (2 << 2) + (1 << 1) + 1,
            0x00,
            0x20,
            0x2,
            0x1,
            0x9,
            0x0,
            0x0
        ]
    );
}

#[test]
fn test_tx_encode_seg_upload_init_resp() {
    let tx_id = FrameId::Standard(0x585);
    let encoded = SDOCoder::encode_tx_frame(
        tx_id,
        SdoFrame::SegmentedUploadInitiateResponse {
            id: EntryId::new(0x2000, 0x04),
            size: 0xABCDEF12,
        },
    );

    assert_eq!(encoded.id(), tx_id);
    assert_eq!(encoded.dlc(), 8);
    assert_eq!(
        encoded.data(),
        &[
            (2 << 5) + (0 << 2) + (0 << 1) + 1,
            0x00,
            0x20,
            0x04,
            0x12,
            0xEF,
            0xCD,
            0xAB
        ]
    );
}

#[test]
fn test_tx_encode_upload_seg_req() {
    let tx_id = FrameId::Standard(0x585);
    let encoded = SDOCoder::encode_tx_frame(tx_id, SdoFrame::SegmentedUploadRequest {
        toggle: false,
    });

    assert_eq!(encoded.id(), tx_id);
    assert_eq!(encoded.dlc(), 8);
    assert_eq!(
        encoded.data(),
        &[(3 << 5) + (0 << 4), 0x0, 0x0, 0x0, 0x0, 0x0, 0x0, 0x0]
    );
}

#[test]
fn test_tx_encode_abort() {
    let tx_id = FrameId::Standard(0x585);
    let encoded = SDOCoder::encode_tx_frame(
        tx_id,
        SdoFrame::Abort {
            id: EntryId::new(0x2000, 0x50),
            code: SdoAbortCode::ResourceNotAvailable,
        },
    );

    assert_eq!(encoded.id(), tx_id);
    assert_eq!(encoded.dlc(), 8);
    assert_eq!(encoded.data(), &[(4 << 5), 0x00, 0x20, 0x50, 0x23, 0x00, 0x0A, 0x06]);
}

// Scenarios from the protocol description

#[test]
fn scenario_upload_request_at_node_5() {
    let f = frame(0x605, &[0x40, 0x00, 0x20, 0x01, 0, 0, 0, 0]);
    let decoded = SDOCoder::try_decode_rx_frame(NodeId::new(5).unwrap(), SDORole::Server, &f);
    assert_eq!(
        decoded,
        Some(SdoFrame::UploadRequest {
            id: EntryId::new(0x2000, 0x01)
        })
    );
}

#[test]
fn scenario_expedited_download_reencodes_identically() {
    let bytes = [0x23, 0x00, 0x20, 0x01, 0x01, 0x02, 0x03, 0x04];
    let f = frame(0x605, &bytes);
    let decoded = SDOCoder::try_decode_rx_frame(NodeId::new(5).unwrap(), SDORole::Server, &f);
    let sdo = decoded.unwrap();
    assert_eq!(
        sdo,
        SdoFrame::ExpeditedDownloadRequest {
            id: EntryId::new(0x2000, 0x01),
            payload: Vec::from_slice(&[0x01, 0x02, 0x03, 0x04]).unwrap()
        }
    );
    let reencoded = SDOCoder::encode_tx_frame(FrameId::Standard(0x605), sdo);
    assert_eq!(reencoded.data(), &bytes);
}

#[test]
fn scenario_abort_out_of_memory() {
    let f = frame(0x605, &[0x80, 0x00, 0x20, 0x00, 0x05, 0x00, 0x04, 0x05]);
    let decoded = SDOCoder::try_decode_rx_frame(NodeId::new(5).unwrap(), SDORole::Server, &f);
    assert_eq!(
        decoded,
        Some(SdoFrame::Abort {
            id: EntryId::new(0x2000, 0x00),
            code: SdoAbortCode::OutOfMemory
        })
    );
}

// Address filtering beyond a wrong identifier

#[test]
fn filter_rejects_extended_identifier() {
    let f = EncodedCANOpenFrame::new(
        FrameId::Extended(0x605),
        &[2 << 5, 0x00, 0x20, 0x01, 0, 0, 0, 0],
    )
    .unwrap();
    let decoded = SDOCoder::try_decode_rx_frame(NodeId::new(5).unwrap(), SDORole::Server, &f);
    assert!(decoded.is_none());
}

#[test]
fn filter_rejects_short_frame() {
    let f = frame(0x605, &[2 << 5, 0x00, 0x20, 0x01, 0, 0, 0]);
    let decoded = SDOCoder::try_decode_rx_frame(NodeId::new(5).unwrap(), SDORole::Server, &f);
    assert!(decoded.is_none());
}

#[test]
fn filter_rejects_unknown_command_family() {
    // Families 5 through 7 match no client and no server command.
    for family in 5u8..=7 {
        let f = frame(0x605, &[family << 5, 0x00, 0x20, 0x01, 0, 0, 0, 0]);
        let as_server =
            SDOCoder::try_decode_rx_frame(NodeId::new(5).unwrap(), SDORole::Server, &f);
        assert!(as_server.is_none());
        let as_client =
            SDOCoder::try_decode_rx_frame(NodeId::new(5).unwrap(), SDORole::Client, &f);
        assert!(as_client.is_none());
    }
}

#[test]
fn abort_with_unrecognized_code_decodes_to_none() {
    let f = frame(0x605, &[0x80, 0x00, 0x20, 0x00, 0xFF, 0xFF, 0xFF, 0xFF]);
    let decoded = SDOCoder::try_decode_rx_frame(NodeId::new(5).unwrap(), SDORole::Server, &f);
    assert!(decoded.is_none());
}

// Round trips through encode then decode, one per message kind

#[test]
fn roundtrip_every_message_kind() {
    let node = NodeId::new(5).unwrap();
    let rx_id = FrameId::Standard(0x605);
    let id = EntryId::new(0x1017, 0x02);

    let client_frames = [
        SdoFrame::UploadRequest { id },
        SdoFrame::ExpeditedDownloadRequest {
            id,
            payload: Vec::from_slice(&[9, 8, 7]).unwrap(),
        },
        SdoFrame::SegmentedDownloadInitiateRequest { id, size: 0xDEADBEEF },
        SdoFrame::SegmentedDownloadRequest {
            toggle: false,
            last: true,
            payload: Vec::from_slice(&[1, 2, 3, 4, 5, 6, 7]).unwrap(),
        },
        SdoFrame::SegmentedUploadRequest { toggle: true },
        SdoFrame::Abort {
            id,
            code: SdoAbortCode::ToggleBitNotAlternated,
        },
    ];
    for sdo in client_frames {
        let encoded = SDOCoder::encode_tx_frame(rx_id, sdo.clone());
        let decoded = SDOCoder::try_decode_rx_frame(node, SDORole::Server, &encoded);
        assert_eq!(decoded, Some(sdo));
    }

    let server_frames = [
        SdoFrame::DownloadInitiateResponse { id },
        SdoFrame::ExpeditedUploadResponse {
            id,
            payload: Vec::from_slice(&[0xAA]).unwrap(),
        },
        SdoFrame::SegmentedUploadInitiateResponse { id, size: 42 },
        SdoFrame::SegmentedUploadResponse {
            toggle: true,
            last: false,
            payload: Vec::from_slice(&[]).unwrap(),
        },
        SdoFrame::SegmentedDownloadResponse { toggle: false },
        SdoFrame::Abort {
            id,
            code: SdoAbortCode::GeneralError,
        },
    ];
    for sdo in server_frames {
        let encoded = SDOCoder::encode_tx_frame(rx_id, sdo.clone());
        let decoded = SDOCoder::try_decode_rx_frame(node, SDORole::Client, &encoded);
        assert_eq!(decoded, Some(sdo));
    }
}

#[test]
fn segment_length_complement_every_length() {
    let node = NodeId::new(5).unwrap();
    let rx_id = FrameId::Standard(0x605);
    let bytes = [1u8, 2, 3, 4, 5, 6, 7];
    for len in 0..=7usize {
        let sdo = SdoFrame::SegmentedDownloadRequest {
            toggle: len % 2 == 0,
            last: len == 7,
            payload: Vec::from_slice(&bytes[..len]).unwrap(),
        };
        let encoded = SDOCoder::encode_tx_frame(rx_id, sdo.clone());
        // The sub-field stores the complement of the length.
        assert_eq!((encoded.data()[0] >> 1) & 0b111, 7 - len as u8);
        let decoded = SDOCoder::try_decode_rx_frame(node, SDORole::Server, &encoded);
        assert_eq!(decoded, Some(sdo));
    }
}

#[test]
fn expedited_length_complement_every_length() {
    let node = NodeId::new(5).unwrap();
    let rx_id = FrameId::Standard(0x605);
    let bytes = [1u8, 2, 3, 4];
    for len in 1..=4usize {
        let sdo = SdoFrame::ExpeditedDownloadRequest {
            id: EntryId::new(0x2000, 0),
            payload: Vec::from_slice(&bytes[..len]).unwrap(),
        };
        let encoded = SDOCoder::encode_tx_frame(rx_id, sdo.clone());
        assert_eq!((encoded.data()[0] >> 2) & 0b11, 4 - len as u8);
        let decoded = SDOCoder::try_decode_rx_frame(node, SDORole::Server, &encoded);
        assert_eq!(decoded, Some(sdo));
    }
}

#[test]
fn frame_new_rejects_more_than_8_bytes() {
    assert!(EncodedCANOpenFrame::new(FrameId::Standard(0x605), &[0; 9]).is_none());
    let f = EncodedCANOpenFrame::new(FrameId::Standard(0x605), &[0; 8]).unwrap();
    assert_eq!(f.dlc(), 8);
    assert!(!f.is_extended());
    assert!(!f.is_remote_frame());
}
