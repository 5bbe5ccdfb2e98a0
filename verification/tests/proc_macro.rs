// The records below lay out their fields in order with the library's
// `Serde` impls; an enum writes its variant's index as one byte first.
use colabie::schemou::{Serde, SerdeError};

fn read<T: Serde>(data: &[u8], used: &mut usize) -> Result<T, SerdeError> {
    let (value, n) = T::deserialize(&data[*used..])?;
    *used += n;
    Ok(value)
}

fn write_f32(value: f32, out: &mut Vec<u8>) {
    value.to_bits().serialize(out);
}

fn read_f32(data: &[u8], used: &mut usize) -> Result<f32, SerdeError> {
    Ok(f32::from_bits(read::<u32>(data, used)?))
}

#[derive(Debug)]
struct Info {
    a: String,
    c: Vec<u8>,
    d: f32,
    e: i32,
}

impl Info {
    fn serialize(&self, out: &mut Vec<u8>) {
        self.a.serialize(out);
        self.c.serialize(out);
        write_f32(self.d, out);
        self.e.serialize(out);
    }

    fn serialize_buffered(&self) -> Vec<u8> {
        let mut out = vec![];
        self.serialize(&mut out);
        out
    }

    fn read(data: &[u8], used: &mut usize) -> Result<Self, SerdeError> {
        Ok(Info {
            a: read(data, used)?,
            c: read(data, used)?,
            d: read_f32(data, used)?,
            e: read(data, used)?,
        })
    }

    fn deserialize(data: &[u8]) -> Result<(Self, usize), SerdeError> {
        let mut used = 0;
        let value = Self::read(data, &mut used)?;
        Ok((value, used))
    }
}

impl PartialEq for Info {
    fn eq(&self, other: &Self) -> bool {
        *self.a == *other.a && self.c == other.c
    }
}

#[derive(Debug, PartialEq, Eq)]
struct TupleStruct(i32, Vec<u8>);

impl TupleStruct {
    fn serialize_buffered(&self) -> Vec<u8> {
        let mut out = vec![];
        self.0.serialize(&mut out);
        self.1.serialize(&mut out);
        out
    }

    fn deserialize(data: &[u8]) -> Result<(Self, usize), SerdeError> {
        let mut used = 0;
        let value = TupleStruct(read(data, &mut used)?, read(data, &mut used)?);
        Ok((value, used))
    }
}

#[derive(PartialEq, Debug)]
enum Foo {
    B,
    C { a: i8, b: u32 },
    D { info: Info },
}

impl Foo {
    fn serialize_buffered(&self) -> Vec<u8> {
        let mut out = vec![];
        match self {
            Foo::B => {
                0u8.serialize(&mut out);
            }
            Foo::C { a, b } => {
                1u8.serialize(&mut out);
                a.serialize(&mut out);
                b.serialize(&mut out);
            }
            Foo::D { info } => {
                2u8.serialize(&mut out);
                info.serialize(&mut out);
            }
        }
        out
    }

    fn deserialize(data: &[u8]) -> Result<(Self, usize), SerdeError> {
        let mut used = 0;
        let value = match read::<u8>(data, &mut used)? {
            0 => Foo::B,
            1 => Foo::C {
                a: read(data, &mut used)?,
                b: read(data, &mut used)?,
            },
            2 => Foo::D {
                info: Info::read(data, &mut used)?,
            },
            tag => {
                return Err(SerdeError::ParsingError {
                    ty_name: "Foo",
                    error: format!("unknown variant {tag}"),
                })
            }
        };
        Ok((value, used))
    }
}

#[test]
fn derive_tuple_struct() {
    let original = TupleStruct(42, vec![10, 20, 30]);

    let serialized = original.serialize_buffered();
    let (deserialized, bytes_read) = TupleStruct::deserialize(&serialized).unwrap();

    assert_eq!(deserialized, original);
    assert_eq!(bytes_read, serialized.len());
}

#[test]
fn derive_struct() {
    let original = Info {
        a: "some_valid_username".to_string(),
        c: vec![1, 2, 3, 4, 5, 6, 7, 8, 9, 10],
        d: 5252345.0421,
        e: i32::MIN,
    };

    let serialized = original.serialize_buffered();
    let (deserialized, bytes_read) = Info::deserialize(&serialized).unwrap();

    assert_eq!(deserialized, original);
    assert_eq!(bytes_read, serialized.len());
}

#[test]
fn mixed_test() {
    let original = Foo::D {
        info: Info {
            a: "some_valid_username".to_string(),
            c: vec![1, 2, 3, 4, 5, 6, 7, 8, 9, 10],
            d: 5252345.0421,
            e: i32::MIN,
        },
    };

    let serialized = original.serialize_buffered();
    let (deserialized, bytes_read) = Foo::deserialize(&serialized).unwrap();

    assert_eq!(deserialized, original);
    assert_eq!(bytes_read, serialized.len());
}

#[test]
fn derive_enum() {
    let original = Foo::C { a: 10, b: 20 };

    let serialized = original.serialize_buffered();
    let (deserialized, bytes_read) = Foo::deserialize(&serialized).unwrap();

    assert_eq!(deserialized, original);
    assert_eq!(bytes_read, serialized.len());
}
