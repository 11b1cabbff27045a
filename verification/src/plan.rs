//! Client-side planning of one advertising test.
//!
//! The client picks a service UUID of the requested width, derives a
//! fresh advertised name from a random seed, and pairs the advertisement
//! the server is asked to broadcast with the matching mode its own scan
//! must then satisfy.  All randomness is supplied by the caller, so the
//! plan is a function of its arguments.

use vstd::prelude::*;

use crate::address::{Uuid, BASE_UUID_BITS};
use crate::adv::{AdvertisementPayload, AdvertisementSpec};
use crate::errors::TestError;
use crate::matcher::{MatchMode, ServiceDataEntry};
use vstd::slice::slice_to_vec;

verus! {

/// The 16-bit assigned number advertised in the short-UUID test.
pub const SHORT_TEST_UUID: u16 = 0x1800;

/// The lowercase hexadecimal digit for a value below 16.
pub open spec fn hex_digit_char(d: int) -> char {
    if d == 0 {
        '0'
    } else if d == 1 {
        '1'
    } else if d == 2 {
        '2'
    } else if d == 3 {
        '3'
    } else if d == 4 {
        '4'
    } else if d == 5 {
        '5'
    } else if d == 6 {
        '6'
    } else if d == 7 {
        '7'
    } else if d == 8 {
        '8'
    } else if d == 9 {
        '9'
    } else if d == 10 {
        'a'
    } else if d == 11 {
        'b'
    } else if d == 12 {
        'c'
    } else if d == 13 {
        'd'
    } else if d == 14 {
        'e'
    } else {
        'f'
    }
}

/// Nibble `i` of a 64-bit value, counting from the most significant.
pub open spec fn nibble(value: u64, i: int) -> int
    recommends
        0 <= i < 16,
{
    ((value >> ((60 - 4 * i) as u64)) & 0xf) as int
}

/// The sixteen lowercase hex digits of a 64-bit value, most significant
/// first.
pub open spec fn hex_name_of(value: u64) -> Seq<char> {
    Seq::new(16, |i: int| hex_digit_char(nibble(value, i)))
}

fn hex_digit_str(d: u64) -> (r: &'static str)
    requires
        d < 16,
    ensures
        r@ == seq![hex_digit_char(d as int)],
{
    if d == 0 {
        proof {
            reveal_strlit("0");
            assert("0"@ =~= seq![hex_digit_char(0)]);
        }
        "0"
    } else if d == 1 {
        proof {
            reveal_strlit("1");
            assert("1"@ =~= seq![hex_digit_char(1)]);
        }
        "1"
    } else if d == 2 {
        proof {
            reveal_strlit("2");
            assert("2"@ =~= seq![hex_digit_char(2)]);
        }
        "2"
    } else if d == 3 {
        proof {
            reveal_strlit("3");
            assert("3"@ =~= seq![hex_digit_char(3)]);
        }
        "3"
    } else if d == 4 {
        proof {
            reveal_strlit("4");
            assert("4"@ =~= seq![hex_digit_char(4)]);
        }
        "4"
    } else if d == 5 {
        proof {
            reveal_strlit("5");
            assert("5"@ =~= seq![hex_digit_char(5)]);
        }
        "5"
    } else if d == 6 {
        proof {
            reveal_strlit("6");
            assert("6"@ =~= seq![hex_digit_char(6)]);
        }
        "6"
    } else if d == 7 {
        proof {
            reveal_strlit("7");
            assert("7"@ =~= seq![hex_digit_char(7)]);
        }
        "7"
    } else if d == 8 {
        proof {
            reveal_strlit("8");
            assert("8"@ =~= seq![hex_digit_char(8)]);
        }
        "8"
    } else if d == 9 {
        proof {
            reveal_strlit("9");
            assert("9"@ =~= seq![hex_digit_char(9)]);
        }
        "9"
    } else if d == 10 {
        proof {
            reveal_strlit("a");
            assert("a"@ =~= seq![hex_digit_char(10)]);
        }
        "a"
    } else if d == 11 {
        proof {
            reveal_strlit("b");
            assert("b"@ =~= seq![hex_digit_char(11)]);
        }
        "b"
    } else if d == 12 {
        proof {
            reveal_strlit("c");
            assert("c"@ =~= seq![hex_digit_char(12)]);
        }
        "c"
    } else if d == 13 {
        proof {
            reveal_strlit("d");
            assert("d"@ =~= seq![hex_digit_char(13)]);
        }
        "d"
    } else if d == 14 {
        proof {
            reveal_strlit("e");
            assert("e"@ =~= seq![hex_digit_char(14)]);
        }
        "e"
    } else {
        proof {
            reveal_strlit("f");
            assert("f"@ =~= seq![hex_digit_char(15)]);
        }
        "f"
    }
}

/// The advertised local name derived from a random 64-bit seed: its
/// sixteen lowercase hex digits.
pub fn advertise_name(value: u64) -> (r: String)
    ensures
        r@ == hex_name_of(value),
{
    let mut s = String::new();
    let mut k: usize = 0;
    proof {
        assert(s@ =~= hex_name_of(value).take(0));
    }
    while k < 16
        invariant
            k <= 16,
            s@ == hex_name_of(value).take(k as int),
        decreases 16 - k,
    {
        let shift: u64 = 60 - 4 * (k as u64);
        let d: u64 = (value >> shift) & 0xf;
        proof {
            assert((value >> shift) & 0xf < 16) by (bit_vector);
            assert(shift == (60 - 4 * (k as int)) as u64);
            assert(d as int == nibble(value, k as int));
        }
        let ds = hex_digit_str(d);
        s.append(ds);
        proof {
            assert(hex_name_of(value).take(k as int + 1) =~= hex_name_of(value).take(k as int)
                + seq![hex_digit_char(nibble(value, k as int))]);
        }
        k += 1;
    }
    proof {
        assert(hex_name_of(value).take(16) =~= hex_name_of(value));
    }
    s
}

/// The UUID a test of the given width advertises: the caller's fresh
/// random UUID at 128 bits, the short assigned number embedded in the
/// base UUID at 16 bits, and `InvalidArgument` for any other width.
pub fn select_service_uuid(uuid_width: u32, random_uuid: Uuid) -> (r: Result<Uuid, TestError>)
    ensures
        r is Ok <==> (uuid_width == 128 || uuid_width == 16),
        uuid_width == 128 ==> r == Ok::<Uuid, TestError>(random_uuid),
        uuid_width == 16 ==> (r matches Ok(u) && u.bits == BASE_UUID_BITS + (
        SHORT_TEST_UUID as u128) * 0x1_0000_0000_0000_0000_0000_0000),
        r matches Err(e) ==> (e matches TestError::InvalidArgument { message } && message@
            == "unsupported service UUID width"@),
{
    if uuid_width == 128 {
        Ok(random_uuid)
    } else if uuid_width == 16 {
        Ok(Uuid::from_u16(SHORT_TEST_UUID))
    } else {
        Err(
            TestError::InvalidArgument {
                message: String::from_str("unsupported service UUID width"),
            },
        )
    }
}

/// One advertising test, planned: what the server is asked to broadcast,
/// and the mode the client's scan must then match.
#[derive(Debug)]
pub struct AdvertisingPlan {
    pub advertisement: AdvertisementSpec,
    pub mode: MatchMode,
}

/// The UUID `plan_advertising_test` settles on for a supported width.
pub open spec fn planned_uuid(uuid_width: u32, random_uuid: Uuid) -> Uuid {
    if uuid_width == 128 {
        random_uuid
    } else {
        Uuid {
            bits: (BASE_UUID_BITS + (SHORT_TEST_UUID as u128)
                * 0x1_0000_0000_0000_0000_0000_0000) as u128,
        }
    }
}

/// Plans one advertising test.  With no service-data bytes the server
/// advertises the UUID and the scan matches on name plus UUID presence;
/// with service-data bytes the server advertises them under the UUID and
/// the scan matches on name plus exact payload.  Only widths 128 and 16
/// are supported; anything else is rejected as an invalid argument.
pub fn plan_advertising_test(
    uuid_width: u32,
    name_seed: u64,
    random_uuid: Uuid,
    service_data: Option<Vec<u8>>,
) -> (r: Result<AdvertisingPlan, TestError>)
    ensures
        r is Ok <==> (uuid_width == 128 || uuid_width == 16),
        r matches Err(e) ==> e is InvalidArgument,
        r matches Ok(p) ==> {
            let uuid = planned_uuid(uuid_width, random_uuid);
            &&& p.advertisement.wf()
            &&& p.advertisement.discoverable
            &&& (p.advertisement.local_name matches Some(n) && n@ == hex_name_of(name_seed))
            &&& match service_data {
                None => {
                    &&& (p.advertisement.payload matches AdvertisementPayload::ServiceUuids {
                        uuids,
                    } && uuids@ == seq![uuid])
                    &&& (p.mode matches MatchMode::NameAndUuid { name, uuid: u } && name@
                        == hex_name_of(name_seed) && u == uuid)
                },
                Some(bytes) => {
                    &&& (p.advertisement.payload matches AdvertisementPayload::ServiceData {
                        entries,
                    } && entries@.len() == 1 && entries@[0].uuid == uuid && entries@[0].data@
                        == bytes@)
                    &&& (p.mode matches MatchMode::ServiceData { name, uuid: u, data } && name@
                        == hex_name_of(name_seed) && u == uuid && data@ == bytes@)
                },
            }
        },
{
    let uuid = match select_service_uuid(uuid_width, random_uuid) {
        Ok(u) => u,
        Err(e) => {
            return Err(e);
        },
    };
    let name = advertise_name(name_seed);
    match service_data {
        None => {
            let uuids = vec![uuid];
            let advertisement = AdvertisementSpec::service_uuids(Some(name.clone()), uuids);
            Ok(AdvertisingPlan { advertisement, mode: MatchMode::NameAndUuid { name, uuid } })
        },
        Some(bytes) => {
            let data_copy = slice_to_vec(bytes.as_slice());
            let entries = vec![ServiceDataEntry { uuid, data: bytes }];
            let advertisement = AdvertisementSpec::service_data(Some(name.clone()), entries);
            Ok(
                AdvertisingPlan {
                    advertisement,
                    mode: MatchMode::ServiceData { name, uuid, data: data_copy },
                },
            )
        },
    }
}

} // verus!
