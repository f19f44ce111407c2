//! Decoding of on-disk singly-linked chains.
//!
//! A chain is a list of same-shaped nodes addressed by absolute offsets,
//! each node holding the offset of the next one, terminated by the null
//! sentinel 0. A terminating chain can never visit the same node twice
//! (the walk is deterministic, so a revisit would loop forever), so a
//! source of `n` bytes holds chains of fewer than `n` nodes; the walk
//! spends one unit of fuel per node and reports a cyclic chain when `n`
//! units were not enough.

use vstd::prelude::*;
use crate::bytes::{be32, get_u32};
use crate::error::DecodeError;

verus! {

/// Fuel that suffices to walk every terminating chain of `s`.
pub open spec fn chain_fuel(s: Seq<u8>) -> nat {
    s.len()
}

/// The node offsets of the chain starting at `head`, in file order.
///
/// Each node occupies `node_size` bytes, of which the four at `next_rel`
/// hold the offset of the next node. A `head` of 0 is the empty chain and
/// is never dereferenced.
pub open spec fn spec_chain(
    s: Seq<u8>,
    head: u32,
    node_size: int,
    next_rel: int,
    fuel: nat,
) -> Result<Seq<u32>, DecodeError>
    decreases fuel,
{
    if head == 0 {
        Ok(Seq::empty())
    } else if fuel == 0 {
        Err(DecodeError::CyclicChain { offset: head as u64 })
    } else if head + node_size > s.len() {
        Err(DecodeError::UnexpectedEnd { offset: head as u64 })
    } else {
        match spec_chain(s, be32(s, head + next_rel), node_size, next_rel, (fuel - 1) as nat) {
            Ok(rest) => Ok(seq![head] + rest),
            Err(e) => Err(e),
        }
    }
}

/// Collects the node offsets of the chain starting at `head`.
pub fn walk_chain(s: &Vec<u8>, head: u32, node_size: u64, next_rel: u64) -> (r: Result<
    Vec<u32>,
    DecodeError,
>)
    requires
        next_rel + 4 <= node_size <= 100,
    ensures
        match r {
            Ok(v) => spec_chain(s@, head, node_size as int, next_rel as int, chain_fuel(s@))
                == Ok::<Seq<u32>, DecodeError>(v@),
            Err(e) => spec_chain(s@, head, node_size as int, next_rel as int, chain_fuel(s@))
                == Err::<Seq<u32>, DecodeError>(e),
        },
{
    let n: usize = s.len();
    let mut cur: u32 = head;
    let mut fuel: u64 = n as u64;
    let mut acc: Vec<u32> = Vec::new();
    loop
        invariant
            n == s@.len(),
            next_rel + 4 <= node_size <= 100,
            fuel <= n,
            (match spec_chain(s@, cur, node_size as int, next_rel as int, fuel as nat) {
                Ok(rest) => spec_chain(
                    s@,
                    head,
                    node_size as int,
                    next_rel as int,
                    chain_fuel(s@),
                ) == Ok::<Seq<u32>, DecodeError>(acc@ + rest),
                Err(e) => spec_chain(s@, head, node_size as int, next_rel as int, chain_fuel(s@))
                    == Err::<Seq<u32>, DecodeError>(e),
            }),
        decreases fuel,
    {
        if cur == 0 {
            proof {
                assert(acc@ + Seq::<u32>::empty() =~= acc@);
            }
            return Ok(acc);
        }
        if fuel == 0 {
            return Err(DecodeError::CyclicChain { offset: cur as u64 });
        }
        if (cur as u64) + node_size > n as u64 {
            return Err(DecodeError::UnexpectedEnd { offset: cur as u64 });
        }
        let next = get_u32(s, (cur as u64) + next_rel);
        let ghost prev = acc@;
        let ghost cur_before: u32 = cur;
        acc.push(cur);
        proof {
            let tail = spec_chain(
                s@,
                be32(s@, cur_before + next_rel),
                node_size as int,
                next_rel as int,
                (fuel - 1) as nat,
            );
            match tail {
                Ok(rest) => {
                    assert(prev + (seq![cur_before] + rest) =~= prev.push(cur_before) + rest);
                },
                Err(_) => {},
            }
        }
        cur = next;
        fuel = fuel - 1;
    }
}

} // verus!
