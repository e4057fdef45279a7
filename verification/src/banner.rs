//! What the device's banner does to a session that was just opened.

use crate::line::{decoded, ProtocolError, Update};
use crate::store::{applied, line_result, Confirmed};
use crate::text::{after, ascii, is_ascii_bytes};
use crate::values::PicoGPIOVersion;
use vstd::prelude::*;

verus! {

/// The banner of the one firmware version that is known.
pub open spec fn known_banner() -> Seq<u8> {
    ascii("+PICO_GPIO V1.0"@)
}

/// The known banner decodes to the known version.
pub proof fn lemma_known_banner_decodes()
    ensures
        decoded(known_banner()) == Ok::<Update, ProtocolError>(
            Update::Version(PicoGPIOVersion::V1_0),
        ),
{
    let line = known_banner();
    reveal_strlit("+PICO_GPIO V1.0");
    reveal_strlit("!OK");
    reveal_strlit("+PICO_GPIO ");
    reveal_strlit("V1.0");
    assert(line.len() == 15);
    assert(is_ascii_bytes(line));
    assert(ascii("!OK"@).len() == 3);
    assert(line.take(11) =~= ascii("+PICO_GPIO "@));
    assert(line.skip(11) =~= ascii("V1.0"@));
    assert(after(line, "+PICO_GPIO "@) == Some(ascii("V1.0"@)));
}

/// A session that has seen no banner takes its version from the first one.
pub proof fn lemma_known_banner_sets_version(c: Confirmed)
    requires
        !c.greeted,
    ensures
        line_result(c, known_banner()) == Ok::<Confirmed, ProtocolError>(
            Confirmed { version: PicoGPIOVersion::V1_0, greeted: true, ..c },
        ),
{
    lemma_known_banner_decodes();
}

/// Only a banner makes a session greeted, and the version is then the
/// banner's: an opening that has finished has the version from the banner.
pub proof fn lemma_greeted_only_by_banner(c: Confirmed, u: Update)
    requires
        !c.greeted,
        applied(c, u) is Ok,
        applied(c, u)->Ok_0.greeted,
    ensures
        u is Version,
        applied(c, u)->Ok_0.version == u->Version_0,
{
}

} // verus!
