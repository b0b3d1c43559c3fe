//! The account that collects the rewards, and the shortened display form
//! of long identifiers.

use crate::digest::{digest_of, hash};
use crate::text::{hex_of, is_lower_hex, lemma_hex_of_is_lower_hex, to_hex};
use vstd::prelude::*;
use vstd::string::*;

verus! {

/// The shortened display form of a text of at least ten characters: its
/// first five characters, three dots, its last five characters.
pub open spec fn shortened(text: Seq<char>) -> Seq<char> {
    text.subrange(0, 5) + seq!['.', '.', '.'] + text.subrange(text.len() - 5, text.len() as int)
}

/// The identity that an account gets from its owner's name: the shortened
/// form of the hexadecimal digest of the name.
pub open spec fn identity_of(name: Seq<char>) -> Seq<char> {
    shortened(hex_of(digest_of(name)))
}

/// The shape of an identity: five lowercase hexadecimal characters, three
/// dots, five lowercase hexadecimal characters.
pub open spec fn is_identity_form(id: Seq<char>) -> bool {
    &&& id.len() == 13
    &&& forall|i: int| 0 <= i < 5 ==> is_lower_hex(#[trigger] id[i])
    &&& id[5] == '.'
    &&& id[6] == '.'
    &&& id[7] == '.'
    &&& forall|i: int| 8 <= i < 13 ==> is_lower_hex(#[trigger] id[i])
}

/// The shortened hexadecimal rendering of at least five bytes has the
/// shape of an identity.
pub proof fn lemma_shortened_hex_is_identity(digest: Seq<u8>)
    requires
        digest.len() >= 5,
    ensures
        is_identity_form(shortened(hex_of(digest))),
{
    let hex = hex_of(digest);
    let id = shortened(hex);
    lemma_hex_of_is_lower_hex(digest, 0);
    assert(id.len() == 13);
    assert forall|i: int| 0 <= i < 5 implies is_lower_hex(#[trigger] id[i]) by {
        lemma_hex_of_is_lower_hex(digest, i);
        assert(id[i] == hex[i]);
    }
    assert forall|i: int| 8 <= i < 13 implies is_lower_hex(#[trigger] id[i]) by {
        lemma_hex_of_is_lower_hex(digest, hex.len() - 13 + i);
        assert(id[i] == hex[hex.len() - 13 + i]);
    }
}

/// Shortens a text of at least ten characters to its first five
/// characters, three dots and its last five characters.
pub fn reduce_string(data: &String) -> (short: String)
    requires
        data@.len() >= 10,
    ensures
        short@ == shortened(data@),
        short@.len() == 13,
{
    let text = data.as_str();
    let len = text.unicode_len();
    let head = text.substring_char(0, 5);
    let tail = text.substring_char(len - 5, len);
    proof {
        reveal_strlit("...");
    }
    let short = String::from_str(head).concat("...").concat(tail);
    assert("..."@ =~= seq!['.', '.', '.']);
    assert(short@ =~= shortened(data@));
    short
}

/// An account: the identity of its owner and the rewards credited so far.
pub struct TokenAccount {
    pub pubkey: String,
    pub tokens: u64,
}

impl TokenAccount {
    /// Opens an account for `name`, with nothing credited. Its identity is
    /// the shortened hexadecimal digest of the name.
    pub fn create(name: String) -> (account: Self)
        ensures
            account.pubkey@ == identity_of(name@),
            is_identity_form(account.pubkey@),
            account.tokens == 0,
    {
        let digest = hash(name);
        let hex = to_hex(digest.as_slice());
        proof {
            lemma_shortened_hex_is_identity(digest@);
        }
        TokenAccount { pubkey: reduce_string(&hex), tokens: 0 }
    }

    /// The rewards credited so far.
    pub fn get_tokens(&self) -> (tokens: u64)
        ensures
            tokens == self.tokens,
    {
        self.tokens
    }

    /// Credits `amount` to the account.
    pub fn add_tokens(&mut self, amount: u64)
        requires
            old(self).tokens + amount <= u64::MAX,
        ensures
            final(self).tokens == old(self).tokens + amount,
            final(self).tokens >= old(self).tokens,
            final(self).pubkey == old(self).pubkey,
    {
        self.tokens = self.tokens + amount;
    }
}

} // verus!
