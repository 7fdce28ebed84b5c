use vstd::prelude::*;

use crate::avatar::DimensionsAvatar;
use crate::avatar::make_avatar;

verus! {

/// Amounts of the payment token are carried in whole subunits, the smallest
/// unit the ledger's decimal amounts resolve; one token is this many subunits.
pub const ONE_TOKEN: u128 = 1_000_000_000_000_000_000;

/// One entry of the avatar vault: a collectible under the integer local
/// identifier the ledger files it by.
pub struct AvatarEntry {
    pub key: u64,
    pub data: DimensionsAvatar,
}

/// The vending component's state.
///
/// `avatar_vault` holds the unsold collectibles, each under its integer local
/// identifier; `avatar_price` is the fixed price of any one of them and
/// `collected_xrd` the payment taken so far, both in subunits of the payment
/// token; `nft_id_counter` and `receiver` are declared by the component but
/// never read or advanced by any operation yet.
pub struct InfiniteNft {
    pub avatar_vault: Vec<AvatarEntry>,
    pub avatar_price: u128,
    pub collected_xrd: u128,
    pub nft_id_counter: u64,
    pub receiver: Vec<u64>,
}

/// What one vault entry holds: the local identifier it is filed under, the
/// same number in its data record, and the three descriptive strings.
pub open spec fn entry_is(
    e: AvatarEntry,
    key: u64,
    name: Seq<char>,
    collection_type: Seq<char>,
    url: Seq<char>,
) -> bool {
    &&& e.key == key
    &&& e.data.nft_id == key
    &&& e.data.name@ == name
    &&& e.data.collection_type@ == collection_type
    &&& e.data.key_image_url@ == url
}

/// The catalog minted at instantiation: seven unique collectibles, filed
/// under the identifiers one through seven.
pub open spec fn is_initial_catalog(s: Seq<AvatarEntry>) -> bool {
    &&& s.len() == 7
    &&& entry_is(
        s[0],
        1,
        "Cat"@,
        "OCI Cat"@,
        "https://radixwalletimages.s3.us-east-2.amazonaws.com/gifs/8.gif"@,
    )
    &&& entry_is(
        s[1],
        2,
        "Dog"@,
        "Doge"@,
        "https://radixwalletimages.s3.us-east-2.amazonaws.com/gifs/9.gif"@,
    )
    &&& entry_is(
        s[2],
        3,
        "Gnome"@,
        "Gnomes"@,
        "https://radixwalletimages.s3.us-east-2.amazonaws.com/gifs/10.gif"@,
    )
    &&& entry_is(
        s[3],
        4,
        "Fractal"@,
        "Radical Fractals"@,
        "https://radixwalletimages.s3.us-east-2.amazonaws.com/gifs/4.gif"@,
    )
    &&& entry_is(
        s[4],
        5,
        "Penguin 1"@,
        "Pengus"@,
        "https://radixwalletimages.s3.us-east-2.amazonaws.com/gifs/5.gif"@,
    )
    &&& entry_is(
        s[5],
        6,
        "Penguin 2"@,
        "Pengus"@,
        "https://radixwalletimages.s3.us-east-2.amazonaws.com/gifs/6.gif"@,
    )
    &&& entry_is(
        s[6],
        7,
        "Robot"@,
        "Rad Robo"@,
        "https://radixwalletimages.s3.us-east-2.amazonaws.com/gifs/7.gif"@,
    )
}

/// The position of the entry filed under `key`, found by a left-to-right walk.
fn find_key(v: &Vec<AvatarEntry>, key: u64) -> (i: usize)
    requires
        exists|j: int| 0 <= j < v@.len() && v@[j].key == key,
    ensures
        i < v@.len(),
        v@[i as int].key == key,
{
    let mut i: usize = 0;
    while i < v.len()
        invariant
            i <= v@.len(),
            exists|j: int| i <= j < v@.len() && v@[j].key == key,
        decreases v@.len() - i,
    {
        if v[i].key == key {
            return i;
        }
        i = i + 1;
    }
    proof {
        assert(false);
    }
    0
}

impl InfiniteNft {
    /// The vault files each collectible under one identifier: no two entries
    /// share a key. The collected amount can still grow by one price for each
    /// entry left, and no such sale overflows the collected amount.
    pub open spec fn wf(self) -> bool {
        &&& forall|i: int, j: int|
            0 <= i < j < self.avatar_vault@.len() ==> self.avatar_vault@[i].key
                != self.avatar_vault@[j].key
        &&& self.collected_xrd + self.avatar_price * self.avatar_vault@.len() <= u128::MAX
    }

    /// Whether the vault still holds a collectible under `key`.
    pub open spec fn holds_key(self, key: u64) -> bool {
        exists|i: int| 0 <= i < self.avatar_vault@.len() && self.avatar_vault@[i].key == key
    }

    /// The position of the entry filed under `key`.
    pub open spec fn key_index(self, key: u64) -> int {
        choose|i: int| 0 <= i < self.avatar_vault@.len() && self.avatar_vault@[i].key == key
    }

    /// How many collectibles are still unsold.
    pub fn avatar_count(&self) -> (n: usize)
        ensures
            n == self.avatar_vault@.len(),
    {
        self.avatar_vault.len()
    }

    /// The fixed price of one collectible, in subunits.
    pub fn price(&self) -> (p: u128)
        ensures
            p == self.avatar_price,
    {
        self.avatar_price
    }

    /// Whether the vault still holds a collectible under `key`.
    pub fn has_avatar(&self, key: u64) -> (b: bool)
        ensures
            b == self.holds_key(key),
    {
        let mut i: usize = 0;
        while i < self.avatar_vault.len()
            invariant
                i <= self.avatar_vault@.len(),
                forall|j: int| 0 <= j < i ==> self.avatar_vault@[j].key != key,
            decreases self.avatar_vault@.len() - i,
        {
            if self.avatar_vault[i].key == key {
                return true;
            }
            i = i + 1;
        }
        false
    }

    /// Mints the fixed catalog once and sets the component going: the seven
    /// collectibles in the vault, the price at one token, nothing collected,
    /// the counter at zero and no receivers.
    pub fn instantiate_infinite() -> (c: InfiniteNft)
        ensures
            c.wf(),
            is_initial_catalog(c.avatar_vault@),
            c.avatar_price == ONE_TOKEN,
            c.collected_xrd == 0,
            c.nft_id_counter == 0,
            c.receiver@.len() == 0,
    {
        let mut vault: Vec<AvatarEntry> = Vec::new();
        vault.push(
            AvatarEntry {
                key: 1,
                data: make_avatar(
                    "Cat",
                    "OCI Cat",
                    "https://radixwalletimages.s3.us-east-2.amazonaws.com/gifs/8.gif",
                    1,
                ),
            },
        );
        vault.push(
            AvatarEntry {
                key: 2,
                data: make_avatar(
                    "Dog",
                    "Doge",
                    "https://radixwalletimages.s3.us-east-2.amazonaws.com/gifs/9.gif",
                    2,
                ),
            },
        );
        vault.push(
            AvatarEntry {
                key: 3,
                data: make_avatar(
                    "Gnome",
                    "Gnomes",
                    "https://radixwalletimages.s3.us-east-2.amazonaws.com/gifs/10.gif",
                    3,
                ),
            },
        );
        vault.push(
            AvatarEntry {
                key: 4,
                data: make_avatar(
                    "Fractal",
                    "Radical Fractals",
                    "https://radixwalletimages.s3.us-east-2.amazonaws.com/gifs/4.gif",
                    4,
                ),
            },
        );
        vault.push(
            AvatarEntry {
                key: 5,
                data: make_avatar(
                    "Penguin 1",
                    "Pengus",
                    "https://radixwalletimages.s3.us-east-2.amazonaws.com/gifs/5.gif",
                    5,
                ),
            },
        );
        vault.push(
            AvatarEntry {
                key: 6,
                data: make_avatar(
                    "Penguin 2",
                    "Pengus",
                    "https://radixwalletimages.s3.us-east-2.amazonaws.com/gifs/6.gif",
                    6,
                ),
            },
        );
        vault.push(
            AvatarEntry {
                key: 7,
                data: make_avatar(
                    "Robot",
                    "Rad Robo",
                    "https://radixwalletimages.s3.us-east-2.amazonaws.com/gifs/7.gif",
                    7,
                ),
            },
        );
        let c = InfiniteNft {
            avatar_vault: vault,
            avatar_price: ONE_TOKEN,
            collected_xrd: 0,
            nft_id_counter: 0,
            receiver: Vec::new(),
        };
        proof {
            let s = c.avatar_vault@;
            assert forall|i: int, j: int| 0 <= i < j < s.len() implies s[i].key != s[j].key by {
                assert(s[0].key == 1);
                assert(s[1].key == 2);
                assert(s[2].key == 3);
                assert(s[3].key == 4);
                assert(s[4].key == 5);
                assert(s[5].key == 6);
                assert(s[6].key == 7);
            }
            assert(s.len() == 7);
            assert(c.collected_xrd + c.avatar_price * s.len() <= u128::MAX) by (nonlinear_arith)
                requires
                    s.len() == 7,
                    c.collected_xrd == 0,
                    c.avatar_price == ONE_TOKEN,
            ;
        }
        c
    }

    /// Sells the collectible filed under `key`: the fixed price moves from the
    /// payment into the collected takings, the collectible leaves the vault,
    /// and the rest of the payment comes back as change.
    ///
    /// The ledger's bucket-splitting and vault-withdrawal calls abort on a
    /// short payment or an absent key, so those inputs are required away here.
    pub fn buy_avatar(&mut self, payment: u128, key: u64) -> (r: (DimensionsAvatar, u128))
        requires
            old(self).wf(),
            payment >= old(self).avatar_price,
            old(self).holds_key(key),
        ensures
            final(self).wf(),
            r.0 == old(self).avatar_vault@[old(self).key_index(key)].data,
            r.1 == payment - old(self).avatar_price,
            final(self).avatar_vault@ == old(self).avatar_vault@.remove(
                old(self).key_index(key),
            ),
            final(self).collected_xrd == old(self).collected_xrd + old(self).avatar_price,
            final(self).avatar_price == old(self).avatar_price,
            final(self).nft_id_counter == old(self).nft_id_counter,
            final(self).receiver@ == old(self).receiver@,
            !final(self).holds_key(key),
            forall|k: u64| k != key ==> final(self).holds_key(k) == old(self).holds_key(k),
    {
        let ghost s = self.avatar_vault@;
        let ghost ki = self.key_index(key);
        let i = find_key(&self.avatar_vault, key);
        proof {
            assert(0 <= ki < s.len() && s[ki].key == key);
            if i as int != ki {
                if (i as int) < ki {
                    assert(s[i as int].key != s[ki].key);
                } else {
                    assert(s[ki].key != s[i as int].key);
                }
            }
        }
        let entry = self.avatar_vault.remove(i);
        proof {
            let p = self.avatar_price as int;
            let l = s.len() as int;
            assert(p * l == p * (l - 1) + p) by (nonlinear_arith);
            assert(p * (l - 1) >= 0) by (nonlinear_arith)
                requires
                    p >= 0,
                    l >= 1,
            ;
            assert(self.collected_xrd + p <= u128::MAX);
        }
        self.collected_xrd = self.collected_xrd + self.avatar_price;
        let change = payment - self.avatar_price;
        proof {
            let t = self.avatar_vault@;
            assert forall|a: int, b: int| 0 <= a < b < t.len() implies t[a].key != t[b].key by {
                if b < ki {
                    assert(t[a] == s[a] && t[b] == s[b]);
                } else if a < ki {
                    assert(t[a] == s[a] && t[b] == s[b + 1]);
                } else {
                    assert(t[a] == s[a + 1] && t[b] == s[b + 1]);
                }
            }
            assert forall|j: int| 0 <= j < t.len() implies t[j].key != key by {
                if j < ki {
                    assert(t[j] == s[j]);
                    assert(s[j].key != s[ki].key);
                } else {
                    assert(t[j] == s[j + 1]);
                    assert(s[ki].key != s[j + 1].key);
                }
            }
            assert forall|k: u64| k != key implies final(self).holds_key(k) == old(
                self,
            ).holds_key(k) by {
                if old(self).holds_key(k) {
                    let j = choose|j: int| 0 <= j < s.len() && s[j].key == k;
                    if j < ki {
                        assert(t[j] == s[j]);
                    } else {
                        assert(j != ki);
                        assert(t[j - 1] == s[j]);
                    }
                    assert(final(self).holds_key(k));
                }
                if final(self).holds_key(k) {
                    let j = choose|j: int| 0 <= j < t.len() && t[j].key == k;
                    if j < ki {
                        assert(t[j] == s[j]);
                    } else {
                        assert(t[j] == s[j + 1]);
                    }
                    assert(old(self).holds_key(k));
                }
            }
        }
        (entry.data, change)
    }
}

} // verus!

