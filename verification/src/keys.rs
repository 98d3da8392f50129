//! The keys of the user properties that hold attributes of a message.

use vstd::prelude::*;

verus! {

/// The key of the user property that holds the major version of uProtocol.
pub const KEY_UPROTOCOL_VERSION: &'static str = "uP";

/// The key of the user property that holds the message identifier.
pub const KEY_MESSAGE_ID: &'static str = "1";

/// The key of the user property that holds the message type.
pub const KEY_TYPE: &'static str = "2";

/// The key of the user property that holds the source.
pub const KEY_SOURCE: &'static str = "3";

/// The key of the user property that holds the sink.
pub const KEY_SINK: &'static str = "4";

/// The key of the user property that holds the priority.
pub const KEY_PRIORITY: &'static str = "5";

/// The key of the user property that holds the time to live.
pub const KEY_TTL: &'static str = "6";

/// The key of the user property that holds the permission level.
pub const KEY_PERMISSION_LEVEL: &'static str = "7";

/// The key of the user property that holds the communication status.
pub const KEY_COMMSTATUS: &'static str = "8";

/// The key of the user property that holds the token.
pub const KEY_TOKEN: &'static str = "10";

/// The key of the user property that holds the trace context.
pub const KEY_TRACEPARENT: &'static str = "11";

/// The key of a user property that once described the payload.
pub const RETIRED_PAYLOAD_KEY_13: &'static str = "13";

/// The key of a user property that once described the payload.
pub const RETIRED_PAYLOAD_KEY_14: &'static str = "14";

/// The key of a user property that once described the payload.
pub const RETIRED_PAYLOAD_KEY_15: &'static str = "15";

/// Whether a key is one of those that are in use or retired.
pub open spec fn is_reserved_key(key: Seq<char>) -> bool {
    exists|i: int| 0 <= i < all_keys().len() && all_keys()[i] == key
}

/// All keys that are in use or retired.
pub open spec fn all_keys() -> Seq<Seq<char>> {
    seq![
        KEY_UPROTOCOL_VERSION@,
        KEY_MESSAGE_ID@,
        KEY_TYPE@,
        KEY_SOURCE@,
        KEY_SINK@,
        KEY_PRIORITY@,
        KEY_TTL@,
        KEY_PERMISSION_LEVEL@,
        KEY_COMMSTATUS@,
        KEY_TOKEN@,
        KEY_TRACEPARENT@,
        RETIRED_PAYLOAD_KEY_13@,
        RETIRED_PAYLOAD_KEY_14@,
        RETIRED_PAYLOAD_KEY_15@,
    ]
}

/// No two keys are the same.
pub proof fn lemma_keys_differ()
    ensures
        all_keys().no_duplicates(),
{
    reveal_strlit("uP");
    reveal_strlit("1");
    reveal_strlit("2");
    reveal_strlit("3");
    reveal_strlit("4");
    reveal_strlit("5");
    reveal_strlit("6");
    reveal_strlit("7");
    reveal_strlit("8");
    reveal_strlit("10");
    reveal_strlit("11");
    reveal_strlit("13");
    reveal_strlit("14");
    reveal_strlit("15");
    let keys = all_keys();
    assert forall|i: int, j: int| 0 <= i < keys.len() && 0 <= j < keys.len() && i != j implies
        keys[i] != keys[j] by {
        assert(keys[i].len() != keys[j].len() || keys[i][0] != keys[j][0] || keys[i][1]
            != keys[j][1]);
    }
}

} // verus!
