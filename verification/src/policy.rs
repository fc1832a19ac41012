//! Market policy lists and the classification of a market id against them.

use vstd::prelude::*;
use crate::hexstr::{all_hex_digits, hex_bytes, hex_decode};
use crate::outcome::MarketError;

verus! {

/// A market identifier: exactly 32 bytes, compared by byte equality.
pub struct MarketId {
    pub bytes: Vec<u8>,
}

impl View for MarketId {
    type V = Seq<u8>;

    open spec fn view(&self) -> Seq<u8> {
        self.bytes@
    }
}

impl MarketId {
    pub open spec fn wf(&self) -> bool {
        self@.len() == 32
    }
}

/// An ordered sequence of market ids, as decoded from one policy file.
pub struct MarketPolicyList {
    pub ids: Vec<MarketId>,
}

impl View for MarketPolicyList {
    type V = Seq<Seq<u8>>;

    open spec fn view(&self) -> Seq<Seq<u8>> {
        self.ids@.map_values(|m: MarketId| m@)
    }
}

impl MarketPolicyList {
    pub open spec fn wf(&self) -> bool {
        forall|i: int| 0 <= i < self.ids@.len() ==> (#[trigger] self.ids@[i]).wf()
    }
}

/// What `serde_json::from_str::<Vec<String>>` parses a policy file into:
/// `Some` of the entries when the text is a JSON array of strings, `None`
/// otherwise.  The result depends on the text alone.
pub uninterp spec fn json_string_list(s: Seq<char>) -> Option<Seq<Seq<char>>>;

/// Relies on `serde_json::from_str::<Vec<String>>`: parses the text as a
/// JSON array of strings; deterministic in the text.
#[verifier::external_body]
fn parse_string_list(text: &str) -> (r: Option<Vec<String>>)
    ensures
        r is Some <==> json_string_list(text@) is Some,
        r matches Some(v) ==> json_string_list(text@) == Some(v.deep_view()),
{
    serde_json::from_str::<Vec<String>>(text).ok()
}

/// An entry of a policy file is kept iff it is valid hex and decodes to
/// exactly 32 bytes.
pub open spec fn entry_kept(e: Seq<char>) -> bool {
    e.len() % 2 == 0 && all_hex_digits(e) && hex_bytes(e).len() == 32
}

/// The ids a sequence of textual entries stands for: each entry hex-decoded,
/// entries that fail to decode or are not 32 bytes long dropped silently.
pub open spec fn ids_of_entries(es: Seq<Seq<char>>) -> Seq<Seq<u8>>
    decreases es.len(),
{
    if es.len() == 0 {
        seq![]
    } else {
        ids_of_entries(es.drop_last()) + (if entry_kept(es.last()) {
            seq![hex_bytes(es.last())]
        } else {
            seq![]
        })
    }
}

/// Builds a policy list from the text of a policy file: the text must be a
/// JSON array of strings, and each entry is kept iff it hex-decodes to
/// exactly 32 bytes.  A bad entry is skipped, never an error.
pub fn list_from_text(text: &str) -> (r: Result<MarketPolicyList, MarketError>)
    ensures
        match r {
            Ok(l) => {
                &&& json_string_list(text@) matches Some(es) && l@ == ids_of_entries(es)
                &&& l.wf()
            },
            Err(e) => {
                &&& json_string_list(text@) is None
                &&& e == MarketError::BadConfigData
            },
        },
{
    let entries = match parse_string_list(text) {
        Some(v) => v,
        None => {
            return Err(MarketError::BadConfigData);
        },
    };
    let ghost es: Seq<Seq<char>> = entries.deep_view();
    let mut ids: Vec<MarketId> = Vec::new();
    let n = entries.len();
    let mut i: usize = 0;
    while i < n
        invariant
            n == entries@.len(),
            0 <= i <= n,
            es == entries.deep_view(),
            ids@.map_values(|m: MarketId| m@) == ids_of_entries(es.take(i as int)),
            forall|k: int| 0 <= k < ids@.len() ==> (#[trigger] ids@[k]).wf(),
        decreases n - i,
    {
        proof {
            assert(es.take(i + 1).drop_last() =~= es.take(i as int));
            assert(es.take(i + 1).last() == entries@[i as int].deep_view());
        }
        let entry = &entries[i];
        match hex_decode(entry.as_str()) {
            Some(bytes) => {
                if bytes.len() == 32 {
                    let ghost old_ids = ids@;
                    ids.push(MarketId { bytes });
                    proof {
                        assert(ids@.map_values(|m: MarketId| m@) =~= old_ids.map_values(
                            |m: MarketId| m@,
                        ) + seq![hex_bytes(es.take(i + 1).last())]);
                    }
                }
            },
            None => {},
        }
        i = i + 1;
    }
    proof {
        assert(es.take(n as int) =~= es);
    }
    Ok(MarketPolicyList { ids })
}

/// How a market id is classified against the two lists.
#[derive(Debug, Clone, Copy, PartialEq, Eq, Structural)]
pub enum Classification {
    Exempt,
    Supported,
    Unsupported,
}

/// The classification contract: the exempt list is searched first and a hit
/// there wins unconditionally; then the supported list; anything else is
/// unsupported.
pub open spec fn spec_classify(
    id: Seq<u8>,
    exempt: Seq<Seq<u8>>,
    supported: Seq<Seq<u8>>,
) -> Classification {
    if exempt.contains(id) {
        Classification::Exempt
    } else if supported.contains(id) {
        Classification::Supported
    } else {
        Classification::Unsupported
    }
}

/// Membership of `market_id` in a policy list, by exact byte equality.
pub fn contains_id(list: &MarketPolicyList, market_id: &[u8; 32]) -> (r: bool)
    ensures
        r == list@.contains(market_id@),
{
    let n = list.ids.len();
    let mut i: usize = 0;
    while i < n
        invariant
            n == list.ids@.len(),
            0 <= i <= n,
            forall|k: int| 0 <= k < i ==> list@[k] != market_id@,
        decreases n - i,
    {
        let id = &list.ids[i];
        if id.bytes.len() == 32 {
            let mut j: usize = 0;
            let mut same = true;
            while j < 32
                invariant
                    0 <= j <= 32,
                    id == &list.ids@[i as int],
                    id.bytes@.len() == 32,
                    market_id@.len() == 32,
                    same <==> (forall|k: int| 0 <= k < j ==> id.bytes@[k] == market_id@[k]),
                decreases 32 - j,
            {
                if id.bytes[j] != market_id[j] {
                    same = false;
                }
                j = j + 1;
            }
            if same {
                proof {
                    assert(list@[i as int] =~= market_id@);
                }
                return true;
            }
        }
        proof {
            if list@[i as int] == market_id@ {
                assert(false);
            }
        }
        i = i + 1;
    }
    false
}

/// Classifies a market id: exempt-list hit first, then supported-list hit,
/// otherwise unsupported.
pub fn classify(
    market_id: &[u8; 32],
    exempt: &MarketPolicyList,
    supported: &MarketPolicyList,
) -> (r: Classification)
    ensures
        r == spec_classify(market_id@, exempt@, supported@),
{
    if contains_id(exempt, market_id) {
        Classification::Exempt
    } else if contains_id(supported, market_id) {
        Classification::Supported
    } else {
        Classification::Unsupported
    }
}

/// A market id on the exempt list is classified Exempt whatever the
/// supported list holds, including when the same id is listed there too.
pub proof fn lemma_exempt_precedence(id: Seq<u8>, exempt: Seq<Seq<u8>>, supported: Seq<Seq<u8>>)
    requires
        exempt.contains(id),
    ensures
        spec_classify(id, exempt, supported) == Classification::Exempt,
{
}

/// A market id absent from both lists is classified Unsupported.
pub proof fn lemma_absent_unsupported(id: Seq<u8>, exempt: Seq<Seq<u8>>, supported: Seq<Seq<u8>>)
    requires
        !exempt.contains(id),
        !supported.contains(id),
    ensures
        spec_classify(id, exempt, supported) == Classification::Unsupported,
{
}

} // verus!
