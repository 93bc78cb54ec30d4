use crate::amount::Amount;
use crate::display::HolderBalances;
use crate::error::CoreError;
use vstd::prelude::*;

verus! {

/// An account's on-chain address: twenty opaque bytes.
#[derive(Clone, Copy, Debug)]
pub struct Address {
    pub bytes: [u8; 20],
}

/// An account identifier and its display alias.
#[derive(Debug)]
pub struct AccountPair(pub String, pub String);

/// The node's list of accounts, in the order it gave them.
#[derive(Debug)]
pub struct AccountList(pub Vec<AccountPair>);

/// `needle` occurs in `hay` starting at character `i`.
pub open spec fn occurs_at(hay: Seq<char>, needle: Seq<char>, i: int) -> bool {
    0 <= i && i + needle.len() <= hay.len() && hay.subrange(i, i + needle.len()) == needle
}

/// `needle` occurs somewhere in `hay`; the empty text occurs everywhere.
pub open spec fn contains_text(hay: Seq<char>, needle: Seq<char>) -> bool {
    exists|i: int| occurs_at(hay, needle, i)
}

/// The characters of `s`, one by one.
fn chars_of(s: &str) -> (r: Vec<char>)
    ensures
        r@ == s@,
{
    let n = s.unicode_len();
    let mut v: Vec<char> = Vec::new();
    let mut i: usize = 0;
    while i < n
        invariant
            0 <= i <= n,
            n == s@.len(),
            v@ == s@.take(i as int),
        decreases n - i,
    {
        v.push(s.get_char(i));
        i = i + 1;
        assert(v@ =~= s@.take(i as int));
    }
    assert(v@ =~= s@);
    v
}

/// Whether `needle` occurs in `hay`.
pub fn text_contains(hay: &str, needle: &str) -> (r: bool)
    ensures
        r == contains_text(hay@, needle@),
{
    let h = chars_of(hay);
    let n = chars_of(needle);
    let hn = h.len();
    let nn = n.len();
    if nn > hn {
        assert forall|k: int| !occurs_at(hay@, needle@, k) by {}
        return false;
    }
    if nn == 0 {
        assert(hay@.subrange(0, 0) =~= needle@);
        assert(occurs_at(hay@, needle@, 0));
        return true;
    }
    let mut i: usize = 0;
    while i <= hn - nn
        invariant
            h@ == hay@,
            n@ == needle@,
            hn == h@.len(),
            nn == n@.len(),
            0 < nn <= hn,
            0 <= i <= hn - nn + 1,
            forall|k: int| 0 <= k < i ==> !occurs_at(hay@, needle@, k),
        decreases hn - nn + 1 - i,
    {
        let mut j: usize = 0;
        let mut same = true;
        while j < nn && same
            invariant
                h@ == hay@,
                n@ == needle@,
                hn == h@.len(),
                nn == n@.len(),
                i + nn <= hn,
                0 <= j <= nn,
                same ==> forall|t: int| 0 <= t < j ==> h@[i + t] == n@[t],
                !same ==> !occurs_at(hay@, needle@, i as int),
            decreases nn - j + (if same { 1int } else { 0int }),
        {
            if h[i + j] != n[j] {
                assert(hay@.subrange(i as int, i + nn)[j as int] != needle@[j as int]);
                same = false;
            } else {
                j = j + 1;
            }
        }
        if same {
            assert(hay@.subrange(i as int, i + nn) =~= needle@);
            assert(occurs_at(hay@, needle@, i as int));
            return true;
        }
        i = i + 1;
    }
    false
}

/// An account matches a search when the text occurs in its identifier or in
/// its alias.
pub open spec fn pair_matches(p: AccountPair, name: Seq<char>) -> bool {
    contains_text(p.0@, name) || contains_text(p.1@, name)
}

/// The index of the last account in `accs` that matches `name`.
pub open spec fn last_match(accs: Seq<AccountPair>, name: Seq<char>) -> Option<int>
    decreases accs.len(),
{
    if accs.len() == 0 {
        None
    } else if pair_matches(accs.last(), name) {
        Some(accs.len() - 1)
    } else {
        last_match(accs.drop_last(), name)
    }
}

/// The last match is a matching account of the list, and none after it matches.
pub proof fn lemma_last_match_is_last(accs: Seq<AccountPair>, name: Seq<char>)
    ensures
        match last_match(accs, name) {
            None => forall|j: int| 0 <= j < accs.len() ==> !pair_matches(#[trigger] accs[j], name),
            Some(k) => 0 <= k < accs.len() && pair_matches(accs[k], name) && forall|j: int|
                k < j < accs.len() ==> !pair_matches(#[trigger] accs[j], name),
        },
    decreases accs.len(),
{
    if accs.len() > 0 {
        lemma_last_match_is_last(accs.drop_last(), name);
        assert forall|j: int| 0 <= j < accs.len() - 1 implies accs[j] == accs.drop_last()[j] by {}
    }
}

/// Finds an account by a fragment of its identifier or alias: of all the
/// accounts that match, the last in the list; `None` where none matches.
pub fn search_account_by_name(accs: &AccountList, name: String) -> (r: Option<AccountPair>)
    ensures
        match last_match(accs.0@, name@) {
            None => r is None,
            Some(i) => r is Some && r.unwrap().0@ == accs.0@[i].0@ && r.unwrap().1@
                == accs.0@[i].1@,
        },
{
    let list = &accs.0;
    let mut found: Option<usize> = None;
    let mut i: usize = 0;
    while i < list.len()
        invariant
            0 <= i <= list@.len(),
            *list == accs.0,
            match last_match(list@.take(i as int), name@) {
                None => found is None,
                Some(k) => found == Some(k as usize),
            },
            found matches Some(k) ==> k < i,
        decreases list@.len() - i,
    {
        assert(list@.take(i + 1).drop_last() =~= list@.take(i as int));
        proof {
            lemma_last_match_is_last(list@.take(i as int), name@);
        }
        let p = &list[i];
        if text_contains(p.0.as_str(), name.as_str()) || text_contains(
            p.1.as_str(),
            name.as_str(),
        ) {
            found = Some(i);
        }
        i = i + 1;
    }
    assert(list@.take(i as int) =~= list@);
    proof {
        lemma_last_match_is_last(list@, name@);
    }
    match found {
        Some(k) => Some(AccountPair(list[k].0.clone(), list[k].1.clone())),
        None => None,
    }
}

/// A refund address registered for one chain; absent where none is set.
#[derive(Clone, Debug)]
pub struct RefundAddress {
    pub chain: String,
    pub address: Option<String>,
}

/// A balance that may only be redeemed to one address.
#[derive(Clone, Copy, Debug)]
pub struct RestrictedBalance {
    pub address: Address,
    pub amount: Amount,
}

/// The roles an account can have.
#[derive(Clone, Copy, Debug, PartialEq, Eq, Structural)]
pub enum Role {
    Unregistered,
    Broker,
    LiquidityProvider,
    Validator,
}

/// The wire tag of each role.
pub open spec fn role_tag(role: Role) -> Seq<char> {
    match role {
        Role::Unregistered => "unregistered"@,
        Role::Broker => "broker"@,
        Role::LiquidityProvider => "liquidity_provider"@,
        Role::Validator => "validator"@,
    }
}

/// The role a wire tag names, if any.
pub open spec fn role_of_tag(tag: Seq<char>) -> Option<Role> {
    if tag == "unregistered"@ {
        Some(Role::Unregistered)
    } else if tag == "broker"@ {
        Some(Role::Broker)
    } else if tag == "liquidity_provider"@ {
        Some(Role::LiquidityProvider)
    } else if tag == "validator"@ {
        Some(Role::Validator)
    } else {
        None
    }
}

impl Role {
    /// The role that `tag` names; any other tag gives `UnrecognizedRole`.
    pub fn from_tag(tag: &str) -> (r: Result<Role, CoreError>)
        ensures
            r == (match role_of_tag(tag@) {
                Some(role) => Ok::<Role, CoreError>(role),
                None => Err(CoreError::UnrecognizedRole),
            }),
    {
        let t = String::from_str(tag);
        if t == String::from_str("unregistered") {
            Ok(Role::Unregistered)
        } else if t == String::from_str("broker") {
            Ok(Role::Broker)
        } else if t == String::from_str("liquidity_provider") {
            Ok(Role::LiquidityProvider)
        } else if t == String::from_str("validator") {
            Ok(Role::Validator)
        } else {
            Err(CoreError::UnrecognizedRole)
        }
    }
}

/// An account's information, with exactly the fields of its role.
#[derive(Clone, Debug)]
pub enum AccountInfo {
    Unregistered { flip_balance: Amount },
    Broker { flip_balance: Amount },
    LiquidityProvider {
        balances: Vec<HolderBalances>,
        refund_addresses: Vec<RefundAddress>,
        flip_balance: Amount,
    },
    Validator {
        flip_balance: Amount,
        bond: Amount,
        last_heartbeat: u32,
        reputation_points: i32,
        keyholder_epochs: Vec<u64>,
        is_current_authority: bool,
        is_current_backup: bool,
        is_qualified: bool,
        is_online: bool,
        is_bidding: bool,
        bound_redeem_address: Option<Address>,
        apy_bp: Option<u32>,
        restricted_balances: Vec<RestrictedBalance>,
    },
}

impl AccountInfo {
    pub open spec fn spec_role(&self) -> Role {
        match self {
            AccountInfo::Unregistered { .. } => Role::Unregistered,
            AccountInfo::Broker { .. } => Role::Broker,
            AccountInfo::LiquidityProvider { .. } => Role::LiquidityProvider,
            AccountInfo::Validator { .. } => Role::Validator,
        }
    }

    /// The role of this account.
    pub fn role(&self) -> (r: Role)
        ensures
            r == self.spec_role(),
    {
        match self {
            AccountInfo::Unregistered { .. } => Role::Unregistered,
            AccountInfo::Broker { .. } => Role::Broker,
            AccountInfo::LiquidityProvider { .. } => Role::LiquidityProvider,
            AccountInfo::Validator { .. } => Role::Validator,
        }
    }

    /// The account's FLIP balance, which every role carries.
    pub fn flip_balance(&self) -> (r: Amount)
        ensures
            r == (match self {
                AccountInfo::Unregistered { flip_balance } => *flip_balance,
                AccountInfo::Broker { flip_balance } => *flip_balance,
                AccountInfo::LiquidityProvider { flip_balance, .. } => *flip_balance,
                AccountInfo::Validator { flip_balance, .. } => *flip_balance,
            }),
    {
        match self {
            AccountInfo::Unregistered { flip_balance } => *flip_balance,
            AccountInfo::Broker { flip_balance } => *flip_balance,
            AccountInfo::LiquidityProvider { flip_balance, .. } => *flip_balance,
            AccountInfo::Validator { flip_balance, .. } => *flip_balance,
        }
    }
}

/// An account-info payload as decoded from the wire: the role tag and every
/// field any role may carry. Fields the tagged role does not have are ignored.
#[derive(Clone, Debug)]
pub struct AccountPayload {
    pub role: String,
    pub flip_balance: Amount,
    pub balances: Vec<HolderBalances>,
    pub refund_addresses: Vec<RefundAddress>,
    pub bond: Amount,
    pub last_heartbeat: u32,
    pub reputation_points: i32,
    pub keyholder_epochs: Vec<u64>,
    pub is_current_authority: bool,
    pub is_current_backup: bool,
    pub is_qualified: bool,
    pub is_online: bool,
    pub is_bidding: bool,
    pub bound_redeem_address: Option<Address>,
    pub apy_bp: Option<u32>,
    pub restricted_balances: Vec<RestrictedBalance>,
}

/// The record a payload classifies as: the variant its tag names, holding
/// that role's fields of the payload.
pub open spec fn classified(p: AccountPayload) -> Result<AccountInfo, CoreError> {
    match role_of_tag(p.role@) {
        None => Err(CoreError::UnrecognizedRole),
        Some(Role::Unregistered) => Ok(AccountInfo::Unregistered { flip_balance: p.flip_balance }),
        Some(Role::Broker) => Ok(AccountInfo::Broker { flip_balance: p.flip_balance }),
        Some(Role::LiquidityProvider) => Ok(
            AccountInfo::LiquidityProvider {
                balances: p.balances,
                refund_addresses: p.refund_addresses,
                flip_balance: p.flip_balance,
            },
        ),
        Some(Role::Validator) => Ok(
            AccountInfo::Validator {
                flip_balance: p.flip_balance,
                bond: p.bond,
                last_heartbeat: p.last_heartbeat,
                reputation_points: p.reputation_points,
                keyholder_epochs: p.keyholder_epochs,
                is_current_authority: p.is_current_authority,
                is_current_backup: p.is_current_backup,
                is_qualified: p.is_qualified,
                is_online: p.is_online,
                is_bidding: p.is_bidding,
                bound_redeem_address: p.bound_redeem_address,
                apy_bp: p.apy_bp,
                restricted_balances: p.restricted_balances,
            },
        ),
    }
}

/// Classifies a payload by its role tag. A tag outside the four known roles
/// gives `UnrecognizedRole`; it is never taken for a default role.
pub fn classify(payload: AccountPayload) -> (r: Result<AccountInfo, CoreError>)
    ensures
        r == classified(payload),
{
    let role = Role::from_tag(payload.role.as_str())?;
    let AccountPayload {
        role: _,
        flip_balance,
        balances,
        refund_addresses,
        bond,
        last_heartbeat,
        reputation_points,
        keyholder_epochs,
        is_current_authority,
        is_current_backup,
        is_qualified,
        is_online,
        is_bidding,
        bound_redeem_address,
        apy_bp,
        restricted_balances,
    } = payload;
    match role {
        Role::Unregistered => Ok(AccountInfo::Unregistered { flip_balance }),
        Role::Broker => Ok(AccountInfo::Broker { flip_balance }),
        Role::LiquidityProvider => Ok(
            AccountInfo::LiquidityProvider { balances, refund_addresses, flip_balance },
        ),
        Role::Validator => Ok(
            AccountInfo::Validator {
                flip_balance,
                bond,
                last_heartbeat,
                reputation_points,
                keyholder_epochs,
                is_current_authority,
                is_current_backup,
                is_qualified,
                is_online,
                is_bidding,
                bound_redeem_address,
                apy_bp,
                restricted_balances,
            },
        ),
    }
}

/// Classification is total over the four known tags, one variant for each,
/// and fails on every other tag.
pub proof fn lemma_classify_total(p: AccountPayload)
    ensures
        forall|role: Role|
            p.role@ == role_tag(role) ==> #[trigger] classified(p) is Ok && classified(p).unwrap().spec_role()
                == role,
        (forall|role: Role| p.role@ != role_tag(role)) ==> classified(p) == Err::<
            AccountInfo,
            CoreError,
        >(CoreError::UnrecognizedRole),
{
    reveal_strlit("unregistered");
    reveal_strlit("broker");
    reveal_strlit("liquidity_provider");
    reveal_strlit("validator");
    assert(role_tag(Role::Unregistered) == "unregistered"@);
    assert(role_tag(Role::Broker) == "broker"@);
    assert(role_tag(Role::LiquidityProvider) == "liquidity_provider"@);
    assert(role_tag(Role::Validator) == "validator"@);
}

/// The flat account record of older node versions: a validator's fields with
/// no role tag.
#[derive(Clone, Debug)]
pub struct AccountInfoV2 {
    pub balance: Amount,
    pub bond: Amount,
    pub last_heartbeat: u32,
    pub reputation_points: u16,
    pub keyholder_epochs: Vec<u64>,
    pub is_current_authority: bool,
    pub is_current_backup: bool,
    pub is_qualified: bool,
    pub is_online: bool,
    pub is_bidding: bool,
    pub bound_redeem_address: Option<Address>,
    pub apy_bp: Option<u32>,
    pub restricted_balances: Option<Vec<RestrictedBalance>>,
}

impl AccountInfoV2 {
    /// Maps the flat record into the role-tagged model, as a validator; an
    /// absent restricted-balance map becomes an empty one.
    pub fn into_account_info(self) -> (r: AccountInfo)
        ensures
            match r {
                AccountInfo::Validator {
                    flip_balance,
                    bond,
                    last_heartbeat,
                    reputation_points,
                    keyholder_epochs,
                    is_current_authority,
                    is_current_backup,
                    is_qualified,
                    is_online,
                    is_bidding,
                    bound_redeem_address,
                    apy_bp,
                    restricted_balances,
                } => flip_balance == self.balance && bond == self.bond && last_heartbeat
                    == self.last_heartbeat && reputation_points == self.reputation_points as i32
                    && keyholder_epochs == self.keyholder_epochs && is_current_authority
                    == self.is_current_authority && is_current_backup == self.is_current_backup
                    && is_qualified == self.is_qualified && is_online == self.is_online
                    && is_bidding == self.is_bidding && bound_redeem_address
                    == self.bound_redeem_address && apy_bp == self.apy_bp
                    && restricted_balances@ == (match self.restricted_balances {
                    Some(v) => v@,
                    None => Seq::<RestrictedBalance>::empty(),
                }),
                _ => false,
            },
    {
        let restricted_balances = match self.restricted_balances {
            Some(v) => v,
            None => Vec::new(),
        };
        AccountInfo::Validator {
            flip_balance: self.balance,
            bond: self.bond,
            last_heartbeat: self.last_heartbeat,
            reputation_points: self.reputation_points as i32,
            keyholder_epochs: self.keyholder_epochs,
            is_current_authority: self.is_current_authority,
            is_current_backup: self.is_current_backup,
            is_qualified: self.is_qualified,
            is_online: self.is_online,
            is_bidding: self.is_bidding,
            bound_redeem_address: self.bound_redeem_address,
            apy_bp: self.apy_bp,
            restricted_balances,
        }
    }
}

} // verus!
