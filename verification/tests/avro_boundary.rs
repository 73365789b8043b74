use apache_avro::types::{Record as AvroRecord, Value};
use apache_avro::{Reader, Schema, Writer};
use http_pipeline::record::{download_contents, store_record, Input, Record};

// The upload handler persists the stored record in an Avro file and the
// download handler reads it back; this exercises that collaborator contract
// at the boundary, in memory, around the library's own conversion.
#[test]
fn upload_download_round_trip() {
    let stored = store_record(Input { content: String::from("x") });

    let schema = Schema::parse_str(
        "{\"type\":\"record\",\"name\":\"Record\",\"fields\":[{\"name\":\"content\",\"type\":\"string\"}]}",
    )
    .unwrap();
    let mut writer = Writer::new(&schema, Vec::new()).unwrap();
    let mut avro_record = AvroRecord::new(&schema).unwrap();
    avro_record.put("content", stored.content.as_str());
    writer.append(avro_record).unwrap();
    let bytes = writer.into_inner().unwrap();

    let reader = Reader::new(&bytes[..]).unwrap();
    let mut records: Vec<Record> = Vec::new();
    for value in reader {
        match value.unwrap() {
            Value::Record(fields) => {
                for (name, field) in fields {
                    if name == "content" {
                        match field {
                            Value::String(s) => records.push(Record { content: s }),
                            _ => panic!("content field was not a string"),
                        }
                    }
                }
            }
            _ => panic!("file did not hold a record"),
        }
    }

    let contents = download_contents(&records);
    assert_eq!(contents, vec![String::from("x")]);
}
