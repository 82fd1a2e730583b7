//! The table of delegate entry points by selector, which the host uses to reach a
//! delegate's handlers.
use vstd::prelude::*;

verus! {

/// An entry point of a delegate contract.
#[derive(Clone, Copy, Debug, PartialEq, Eq)]
pub enum DelegateMessage {
    /// The constructor `new(evm_address)`.
    New,
    /// Fungible `approve(spender, value)`.
    Psp22Approve,
    /// Fungible `transfer(to, value, data)`.
    Psp22Transfer,
    /// Fungible `transfer_from(from, to, value, data)`.
    Psp22TransferFrom,
    /// Non-fungible `approve(operator, id, approved)`.
    Psp34Approve,
    /// Non-fungible `transfer(to, id, data)`.
    Psp34Transfer,
}

pub open spec fn selector_of(m: DelegateMessage) -> [u8; 4] {
    match m {
        DelegateMessage::New => [0x9b, 0xae, 0x9d, 0x5e],
        DelegateMessage::Psp22Approve => [0xb2, 0x0f, 0x1b, 0xbd],
        DelegateMessage::Psp22Transfer => [0xdb, 0x20, 0xf9, 0xf5],
        DelegateMessage::Psp22TransferFrom => [0x54, 0xb3, 0xc7, 0x6e],
        DelegateMessage::Psp34Approve => [0x19, 0x32, 0xa8, 0xb0],
        DelegateMessage::Psp34Transfer => [0x31, 0x28, 0xd6, 0x1b],
    }
}

impl DelegateMessage {
    /// The entry point's selector.
    pub fn selector(&self) -> (r: [u8; 4])
        ensures
            r == selector_of(*self),
    {
        match *self {
            DelegateMessage::New => [0x9b, 0xae, 0x9d, 0x5e],
            DelegateMessage::Psp22Approve => [0xb2, 0x0f, 0x1b, 0xbd],
            DelegateMessage::Psp22Transfer => [0xdb, 0x20, 0xf9, 0xf5],
            DelegateMessage::Psp22TransferFrom => [0x54, 0xb3, 0xc7, 0x6e],
            DelegateMessage::Psp34Approve => [0x19, 0x32, 0xa8, 0xb0],
            DelegateMessage::Psp34Transfer => [0x31, 0x28, 0xd6, 0x1b],
        }
    }

    /// The entry point that a selector names, if any.
    pub fn from_selector(s: [u8; 4]) -> (r: Option<DelegateMessage>)
        ensures
            r matches Some(m) ==> selector_of(m) == s,
            r is None ==> forall|m: DelegateMessage| selector_of(m) != s,
    {
        let all = [
            DelegateMessage::New,
            DelegateMessage::Psp22Approve,
            DelegateMessage::Psp22Transfer,
            DelegateMessage::Psp22TransferFrom,
            DelegateMessage::Psp34Approve,
            DelegateMessage::Psp34Transfer,
        ];
        let mut i: usize = 0;
        while i < 6
            invariant
                0 <= i <= 6,
                all@ == seq![
                    DelegateMessage::New,
                    DelegateMessage::Psp22Approve,
                    DelegateMessage::Psp22Transfer,
                    DelegateMessage::Psp22TransferFrom,
                    DelegateMessage::Psp34Approve,
                    DelegateMessage::Psp34Transfer,
                ],
                forall|j: int| 0 <= j < i ==> selector_of(all@[j]) != s,
            decreases 6 - i,
        {
            let m = all[i];
            let t = m.selector();
            if t[0] == s[0] && t[1] == s[1] && t[2] == s[2] && t[3] == s[3] {
                assert(t =~= s);
                return Some(m);
            }
            assert(t != s);
            i = i + 1;
        }
        proof {
            assert forall|m: DelegateMessage| selector_of(m) != s by {
                let j: int = match m {
                    DelegateMessage::New => 0,
                    DelegateMessage::Psp22Approve => 1,
                    DelegateMessage::Psp22Transfer => 2,
                    DelegateMessage::Psp22TransferFrom => 3,
                    DelegateMessage::Psp34Approve => 4,
                    DelegateMessage::Psp34Transfer => 5,
                };
                assert(all@[j] == m);
            }
        }
        None
    }
}

/// The table is one to one: each selector names at most one entry point.
pub proof fn lemma_selectors_distinct(a: DelegateMessage, b: DelegateMessage)
    ensures
        selector_of(a) == selector_of(b) ==> a == b,
{
    if selector_of(a) == selector_of(b) {
        assert(selector_of(a)[0] == selector_of(b)[0]);
        assert(selector_of(a)[1] == selector_of(b)[1]);
    }
}

} // verus!
