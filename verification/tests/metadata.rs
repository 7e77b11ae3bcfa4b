use publication::encoding::{Encoding, KnownEncoding};
use publication::metadata::DataInfo;
use publication::qos::{Channel, CongestionControl, Priority, Reliability};
use publication::sample::{SampleKind, Timestamp, Value};

fn stamp() -> Timestamp {
    Timestamp { time: 0x0123_4567_89ab_cdef, id: 42 }
}

#[test]
fn default_put_without_timestamp_emits_nothing() {
    let info = DataInfo::for_sample(SampleKind::Put, Encoding::default(), None);
    assert_eq!(info, None);
}

#[test]
fn default_put_with_timestamp_omits_kind_and_encoding() {
    let info = DataInfo::for_sample(SampleKind::Put, Encoding::default(), Some(stamp()));
    assert_eq!(
        info,
        Some(DataInfo { kind: None, encoding: None, timestamp: Some(stamp()) })
    );
    assert_eq!(DataInfo::kind_of(&info), SampleKind::Put);
    assert_eq!(DataInfo::encoding_of(&info), Encoding::Exact(KnownEncoding::Empty));
    assert_eq!(DataInfo::timestamp_of(&info), Some(stamp()));
}

#[test]
fn omitted_metadata_reads_back_as_default_put() {
    assert_eq!(DataInfo::kind_of(&None), SampleKind::Put);
    assert_eq!(DataInfo::encoding_of(&None), Encoding::default());
    assert_eq!(DataInfo::timestamp_of(&None), None);
}

#[test]
fn delete_always_records_its_kind() {
    let bare = DataInfo::for_sample(SampleKind::Delete, Encoding::default(), None);
    assert_eq!(
        bare,
        Some(DataInfo { kind: Some(SampleKind::Delete), encoding: None, timestamp: None })
    );
    let stamped = DataInfo::for_sample(
        SampleKind::Delete,
        Encoding::Exact(KnownEncoding::AppJson),
        Some(stamp()),
    );
    assert_eq!(
        stamped,
        Some(DataInfo {
            kind: Some(SampleKind::Delete),
            encoding: Some(Encoding::Exact(KnownEncoding::AppJson)),
            timestamp: Some(stamp()),
        })
    );
    assert_eq!(DataInfo::kind_of(&stamped), SampleKind::Delete);
}

#[test]
fn non_default_encoding_is_recorded() {
    let info = DataInfo::for_sample(SampleKind::Put, Encoding::Exact(KnownEncoding::TextPlain), None);
    assert_eq!(
        info,
        Some(DataInfo {
            kind: None,
            encoding: Some(Encoding::Exact(KnownEncoding::TextPlain)),
            timestamp: None,
        })
    );
    assert_eq!(DataInfo::encoding_of(&info), Encoding::Exact(KnownEncoding::TextPlain));
}

#[test]
fn empty_prefix_with_suffix_is_not_the_default_encoding() {
    let tagged = Encoding::WithSuffix(KnownEncoding::Empty, String::from("custom/type"));
    assert!(!tagged.is_default());
    let info = DataInfo::for_sample(SampleKind::Put, tagged.clone(), None);
    assert_eq!(info, Some(DataInfo { kind: None, encoding: Some(tagged.clone()), timestamp: None }));
    assert_eq!(DataInfo::encoding_of(&info), tagged);

    let empty_suffix = Encoding::WithSuffix(KnownEncoding::Empty, String::new());
    assert!(!empty_suffix.is_default());
    assert!(Encoding::Exact(KnownEncoding::Empty).is_default());
    assert!(!Encoding::Exact(KnownEncoding::ImageGif).is_default());
}

#[test]
fn has_options_counts_each_field() {
    assert!(!DataInfo::new().has_options());
    assert_eq!(DataInfo::new(), DataInfo { kind: None, encoding: None, timestamp: None });
    assert!(DataInfo { kind: Some(SampleKind::Delete), encoding: None, timestamp: None }.has_options());
    assert!(DataInfo { kind: None, encoding: Some(Encoding::default()), timestamp: None }.has_options());
    assert!(DataInfo { kind: None, encoding: None, timestamp: Some(stamp()) }.has_options());
}

#[test]
fn metadata_clone_keeps_every_field() {
    let info = DataInfo {
        kind: Some(SampleKind::Delete),
        encoding: Some(Encoding::WithSuffix(KnownEncoding::TextPlain, String::from(";utf-8"))),
        timestamp: Some(stamp()),
    };
    assert_eq!(info.clone(), info);
}

#[test]
fn encoding_prefix_and_conversion() {
    assert_eq!(Encoding::from(KnownEncoding::AppXml), Encoding::Exact(KnownEncoding::AppXml));
    assert_eq!(Encoding::Exact(KnownEncoding::AppXml).prefix(), KnownEncoding::AppXml);
    assert_eq!(
        Encoding::WithSuffix(KnownEncoding::TextCsv, String::from(";x")).prefix(),
        KnownEncoding::TextCsv
    );
    assert_eq!(Encoding::default(), Encoding::Exact(KnownEncoding::Empty));
}

#[test]
fn known_encoding_codes_round_trip() {
    assert_eq!(KnownEncoding::Empty.code(), 0);
    assert_eq!(KnownEncoding::TextPlain.code(), 3);
    assert_eq!(KnownEncoding::AppJson.code(), 5);
    assert_eq!(KnownEncoding::ImageGif.code(), 20);
    let mut code: u8 = 0;
    while code <= 20 {
        let known = KnownEncoding::from_code(code).unwrap();
        assert_eq!(known.code(), code);
        code += 1;
    }
    assert_eq!(KnownEncoding::from_code(21), None);
    assert_eq!(KnownEncoding::from_code(255), None);
}

#[test]
fn qos_defaults_and_publication_channel() {
    assert_eq!(CongestionControl::default(), CongestionControl::Drop);
    assert_eq!(Priority::default(), Priority::Data);
    assert_eq!(SampleKind::default(), SampleKind::Put);
    assert_eq!(
        Channel::for_publication(Priority::DataHigh),
        Channel { priority: Priority::DataHigh, reliability: Reliability::Reliable }
    );
}

#[test]
fn value_constructors() {
    let v = Value::new(vec![1, 2, 3]);
    assert_eq!(v.payload, vec![1, 2, 3]);
    assert_eq!(v.encoding, Encoding::default());
    let e = Value::empty();
    assert!(e.payload.is_empty());
    assert_eq!(e.encoding, Encoding::default());
    let t = v.encoding(Encoding::Exact(KnownEncoding::AppOctetStream));
    assert_eq!(t.payload, vec![1, 2, 3]);
    assert_eq!(t.encoding, Encoding::Exact(KnownEncoding::AppOctetStream));
    let from: Value = vec![9u8, 8].into();
    assert_eq!(from, Value { payload: vec![9, 8], encoding: Encoding::default() });
}
