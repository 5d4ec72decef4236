//! The catalog manager: it brings service names to a normal form, keeps one
//! catalog entry per normal form, and holds prices to an entry's bounds.

use crate::domain::models::{ServiceCategory, ServiceSuggestion, ServiceSuggestionView};
use crate::domain::price::Price;
use crate::error::{BotError, ErrorKind};
use crate::utils::text::{chars_of, is_space, is_upper, lower, to_lower};
use vstd::prelude::*;
use vstd::string::*;

verus! {

/// Whether `c` is a punctuation mark or another sign of the ASCII range
/// that is neither a letter, a digit nor white space.
pub open spec fn is_punctuation(c: char) -> bool {
    ||| '!' <= c <= '/'
    ||| ':' <= c <= '@'
    ||| '[' <= c <= '`'
    ||| '{' <= c <= '~'
}

/// `s` without its punctuation, with a blank for every white space
/// character and a small letter for every capital one.
pub open spec fn folded(s: Seq<char>) -> Seq<char> {
    s.filter(|c: char| !is_punctuation(c)).map_values(
        |c: char|
            if is_space(c) {
                ' '
            } else {
                lower(c)
            },
    )
}

/// `t` without the blanks at its beginning and at its end, and with one
/// blank for every run of blanks inside it.
pub open spec fn squeezed(t: Seq<char>) -> Seq<char>
    decreases t.len(),
{
    if t.len() == 0 {
        t
    } else {
        let before = squeezed(t.drop_last());
        if t.last() == ' ' {
            before
        } else if before.len() > 0 && t.len() >= 2 && t[t.len() - 2] == ' ' {
            before.push(' ').push(t.last())
        } else {
            before.push(t.last())
        }
    }
}

/// The normal form of a service name: small letters, no punctuation, the
/// words separated by single blanks. Names with the same normal form name
/// the same catalog entry.
pub open spec fn normalized(name: Seq<char>) -> Seq<char> {
    squeezed(folded(name))
}

fn punctuation(c: char) -> (r: bool)
    ensures
        r == is_punctuation(c),
{
    (c >= '!' && c <= '/') || (c >= ':' && c <= '@') || (c >= '[' && c <= '`') || (c >= '{' && c
        <= '~')
}

fn space(c: char) -> (r: bool)
    ensures
        r == is_space(c),
{
    c == ' ' || (c >= '\t' && c <= '\r')
}

/// Brings a service name to its normal form.
pub fn normalize(name: &str) -> (r: String)
    ensures
        r@ == normalized(name@),
{
    let chars = chars_of(name);
    let ghost keep = |c: char| !is_punctuation(c);
    let ghost fold = |c: char|
        if is_space(c) {
            ' '
        } else {
            lower(c)
        };
    let mut out = String::new();
    let mut fresh = true;
    let mut gap = false;
    let mut i: usize = 0;
    proof {
        reveal(Seq::filter);
        assert(folded(chars@.take(0)) == Seq::<char>::empty());
    }
    while i < chars.len()
        invariant
            i <= chars@.len(),
            keep == (|c: char| !is_punctuation(c)),
            fold == (|c: char|
                if is_space(c) {
                    ' '
                } else {
                    lower(c)
                }),
            out@ == squeezed(folded(chars@.take(i as int))),
            fresh == (out@.len() == 0),
            gap == (folded(chars@.take(i as int)).len() > 0 && folded(
                chars@.take(i as int),
            ).last() == ' '),
        decreases chars@.len() - i,
    {
        let c = chars[i];
        proof {
            let prefix = chars@.take(i as int);
            assert(chars@.take(i + 1) == prefix.push(c));
            prefix.lemma_filter_push(c, keep);
            if keep(c) {
                assert(prefix.filter(keep).push(c).map_values(fold) == prefix.filter(
                    keep,
                ).map_values(fold).push(fold(c)));
                assert(folded(prefix).push(fold(c)).drop_last() == folded(prefix));
            }
        }
        if punctuation(c) {
        } else if space(c) {
            gap = true;
        } else {
            if gap && !fresh {
                out.push(' ');
            }
            out.push(to_lower(c));
            fresh = false;
            gap = false;
        }
        i = i + 1;
    }
    proof {
        assert(chars@.take(chars@.len() as int) == chars@);
    }
    out
}

/// Whether some entry of `entries` has the normal form `key`.
pub open spec fn has_name(entries: Seq<ServiceSuggestionView>, key: Seq<char>) -> bool {
    exists|i: int| 0 <= i < entries.len() && (#[trigger] entries[i]).normalized_name == key
}

/// The position of the entry with the normal form `key`.
pub open spec fn index_of_name(entries: Seq<ServiceSuggestionView>, key: Seq<char>) -> int {
    choose|i: int| 0 <= i < entries.len() && (#[trigger] entries[i]).normalized_name == key
}

/// Whether some entry of `entries` has the identifier `id`.
pub open spec fn has_entry(entries: Seq<ServiceSuggestionView>, id: u128) -> bool {
    exists|i: int| 0 <= i < entries.len() && (#[trigger] entries[i]).id == id
}

/// The position of the entry with the identifier `id`.
pub open spec fn index_of_entry(entries: Seq<ServiceSuggestionView>, id: u128) -> int {
    choose|i: int| 0 <= i < entries.len() && (#[trigger] entries[i]).id == id
}

/// Whether `entry` is one that the catalog can hold: its normal form is
/// that of its name and is not empty, and its reference price is not above
/// its maximum price.
pub open spec fn sound(entry: ServiceSuggestionView) -> bool {
    &&& entry.normalized_name == normalized(entry.service_name)
    &&& entry.normalized_name.len() > 0
    &&& entry.reference_price_per_slot.hundredths <= entry.max_price_per_slot.hundredths
}

/// Whether `entries` is a state that the catalog can be in: every entry is
/// sound, and no identifier and no normal form occurs twice.
pub open spec fn well_formed(entries: Seq<ServiceSuggestionView>) -> bool {
    &&& forall|i: int| 0 <= i < entries.len() ==> sound(#[trigger] entries[i])
    &&& forall|i: int, j: int|
        #![trigger entries[i], entries[j]]
        0 <= i < j < entries.len() ==> entries[i].id != entries[j].id
    &&& forall|i: int, j: int|
        #![trigger entries[i], entries[j]]
        0 <= i < j < entries.len() ==> entries[i].normalized_name != entries[j].normalized_name
}

/// The entry that is created for a name that the catalog does not know yet.
pub open spec fn new_entry(
    id: u128,
    name: Seq<char>,
    category: ServiceCategory,
    reference_price: Price,
    max_price: Price,
    now: i64,
) -> ServiceSuggestionView {
    ServiceSuggestionView {
        id,
        service_name: name,
        normalized_name: normalized(name),
        category,
        icon_emoji: Seq::empty(),
        reference_price_per_slot: reference_price,
        max_price_per_slot: max_price,
        created_at: now,
        updated_at: now,
    }
}

/// Why a name cannot be looked up or entered, if anything stands against it.
///
/// In this order: the name has an empty normal form; the catalog knows the
/// name under another category; and, for a name the catalog does not know,
/// the reference price lies above the maximum price, or the identifier is
/// taken.
pub open spec fn refusal(
    entries: Seq<ServiceSuggestionView>,
    id: u128,
    name: Seq<char>,
    category: ServiceCategory,
    reference_price: Price,
    max_price: Price,
) -> Option<(ErrorKind, Seq<char>)> {
    let key = normalized(name);
    if key.len() == 0 {
        Some((ErrorKind::Validation, "service name is empty"@))
    } else if has_name(entries, key) {
        if entries[index_of_name(entries, key)].category != category {
            Some((ErrorKind::Validation, "category differs from the catalog entry"@))
        } else {
            None
        }
    } else if reference_price.hundredths > max_price.hundredths {
        Some((ErrorKind::Validation, "reference price above maximum price"@))
    } else if has_entry(entries, id) {
        Some((ErrorKind::Conflict, "suggestion id already in use"@))
    } else {
        None
    }
}

/// The catalog of services.
pub struct CatalogManager {
    entries: Vec<ServiceSuggestion>,
}

impl View for CatalogManager {
    type V = Seq<ServiceSuggestionView>;

    /// The entries in the order of their creation.
    closed spec fn view(&self) -> Seq<ServiceSuggestionView> {
        self.entries@.map_values(|e: ServiceSuggestion| e@)
    }
}

impl CatalogManager {
    /// Whether the catalog is in a state that its operations can have led to.
    pub open spec fn wf(&self) -> bool {
        well_formed(self@)
    }

    /// An empty catalog.
    pub fn new() -> (r: Self)
        ensures
            r@ == Seq::<ServiceSuggestionView>::empty(),
            r.wf(),
    {
        CatalogManager { entries: Vec::new() }
    }

    /// The catalog that holds `entries`, where they make a state that the
    /// catalog can be in; a validation error where they do not.
    pub fn restore(entries: Vec<ServiceSuggestion>) -> (r: Result<Self, BotError>)
        ensures
            match r {
                Ok(catalog) => {
                    &&& catalog.wf()
                    &&& catalog@ == entries@.map_values(|e: ServiceSuggestion| e@)
                },
                Err(e) => {
                    &&& !well_formed(entries@.map_values(|e: ServiceSuggestion| e@))
                    &&& e.is(ErrorKind::Validation, "entries contradict each other"@)
                },
            },
    {
        let ghost views = entries@.map_values(|e: ServiceSuggestion| e@);
        let mut j: usize = 0;
        while j < entries.len()
            invariant
                j <= entries@.len(),
                views == entries@.map_values(|e: ServiceSuggestion| e@),
                forall|k: int| 0 <= k < j ==> sound(#[trigger] views[k]),
                forall|a: int, b: int|
                    #![trigger views[a], views[b]]
                    0 <= a < b < j ==> views[a].id != views[b].id && views[a].normalized_name
                        != views[b].normalized_name,
            decreases entries@.len() - j,
        {
            let entry = &entries[j];
            let key = normalize(entry.service_name.as_str());
            let fine = key == entry.normalized_name && key.as_str().unicode_len() > 0
                && entry.reference_price_per_slot.hundredths
                <= entry.max_price_per_slot.hundredths;
            if !fine {
                return Err(
                    BotError::ValidationError(String::from_str("entries contradict each other")),
                );
            }
            let mut i: usize = 0;
            while i < j
                invariant
                    i <= j < entries@.len(),
                    views == entries@.map_values(|e: ServiceSuggestion| e@),
                    *entry == entries@[j as int],
                    forall|a: int|
                        #![trigger views[a]]
                        0 <= a < i ==> views[a].id != views[j as int].id
                            && views[a].normalized_name != views[j as int].normalized_name,
                decreases j - i,
            {
                let other = &entries[i];
                assert(other@ == views[i as int]);
                if other.id == entry.id || other.normalized_name == entry.normalized_name {
                    return Err(
                        BotError::ValidationError(
                            String::from_str("entries contradict each other"),
                        ),
                    );
                }
                i = i + 1;
            }
            j = j + 1;
        }
        Ok(CatalogManager { entries })
    }

    /// The number of entries.
    pub fn len(&self) -> (r: usize)
        ensures
            r == self@.len(),
    {
        self.entries.len()
    }

    fn position_of_name(&self, key: &String) -> (r: Option<usize>)
        ensures
            match r {
                Some(i) => i < self@.len() && self@[i as int].normalized_name == key@,
                None => !has_name(self@, key@),
            },
    {
        let mut i: usize = 0;
        while i < self.entries.len()
            invariant
                i <= self.entries@.len(),
                forall|k: int| 0 <= k < i ==> (#[trigger] self@[k]).normalized_name != key@,
            decreases self.entries@.len() - i,
        {
            if self.entries[i].normalized_name == *key {
                return Some(i);
            }
            i = i + 1;
        }
        None
    }

    fn position_of_id(&self, id: u128) -> (r: Option<usize>)
        ensures
            match r {
                Some(i) => i < self@.len() && self@[i as int].id == id,
                None => !has_entry(self@, id),
            },
    {
        let mut i: usize = 0;
        while i < self.entries.len()
            invariant
                i <= self.entries@.len(),
                forall|k: int| 0 <= k < i ==> (#[trigger] self@[k]).id != id,
            decreases self.entries@.len() - i,
        {
            if self.entries[i].id == id {
                return Some(i);
            }
            i = i + 1;
        }
        None
    }

    /// The entry with the identifier `id`, if there is one.
    pub fn find(&self, id: u128) -> (r: Option<&ServiceSuggestion>)
        requires
            self.wf(),
        ensures
            match r {
                Some(entry) => has_entry(self@, id) && entry@ == self@[index_of_entry(self@, id)]
                    && entry.id == id,
                None => !has_entry(self@, id),
            },
    {
        match self.position_of_id(id) {
            Some(i) => {
                proof {
                    lemma_index_of_entry(self@, id, i as int);
                }
                Some(&self.entries[i])
            },
            None => None,
        }
    }

    /// The entry that `name` names, if there is one.
    pub fn lookup(&self, name: &str) -> (r: Option<&ServiceSuggestion>)
        requires
            self.wf(),
        ensures
            match r {
                Some(entry) => has_name(self@, normalized(name@)) && entry@
                    == self@[index_of_name(self@, normalized(name@))],
                None => !has_name(self@, normalized(name@)),
            },
    {
        let key = normalize(name);
        match self.position_of_name(&key) {
            Some(i) => {
                proof {
                    lemma_index_of_name(self@, key@, i as int);
                }
                Some(&self.entries[i])
            },
            None => None,
        }
    }

    /// Returns the entry that `name` names, creating it where the catalog
    /// does not know the name yet.
    ///
    /// An entry that exists is returned as it is, whatever prices are given;
    /// the catalog does not change. A new entry gets the identifier `id`,
    /// the name as given and the prices given. Fails, and changes nothing,
    /// as `refusal` says.
    pub fn find_or_create_suggestion(
        &mut self,
        id: u128,
        name: &str,
        category: ServiceCategory,
        reference_price: Price,
        max_price: Price,
        now: i64,
    ) -> (r: Result<ServiceSuggestion, BotError>)
        requires
            old(self).wf(),
        ensures
            final(self).wf(),
            match r {
                Ok(entry) => {
                    &&& refusal(old(self)@, id, name@, category, reference_price, max_price)
                        is None
                    &&& if has_name(old(self)@, normalized(name@)) {
                        &&& entry@ == old(self)@[index_of_name(old(self)@, normalized(name@))]
                        &&& final(self)@ == old(self)@
                    } else {
                        &&& entry@ == new_entry(
                            id,
                            name@,
                            category,
                            reference_price,
                            max_price,
                            now,
                        )
                        &&& final(self)@ == old(self)@.push(entry@)
                    }
                },
                Err(e) => {
                    &&& refusal(old(self)@, id, name@, category, reference_price, max_price)
                        matches Some(why)
                    &&& e.is(why.0, why.1)
                    &&& final(self)@ == old(self)@
                },
            },
    {
        let key = normalize(name);
        if key.as_str().unicode_len() == 0 {
            return Err(BotError::ValidationError(String::from_str("service name is empty")));
        }
        match self.position_of_name(&key) {
            Some(i) => {
                proof {
                    lemma_index_of_name(self@, key@, i as int);
                }
                let known = &self.entries[i];
                if known.category != category {
                    return Err(
                        BotError::ValidationError(
                            String::from_str("category differs from the catalog entry"),
                        ),
                    );
                }
                Ok(known.clone())
            },
            None => {
                if reference_price.hundredths > max_price.hundredths {
                    return Err(
                        BotError::ValidationError(
                            String::from_str("reference price above maximum price"),
                        ),
                    );
                }
                if self.position_of_id(id).is_some() {
                    return Err(
                        BotError::Conflict(String::from_str("suggestion id already in use")),
                    );
                }
                let entry = ServiceSuggestion {
                    id,
                    service_name: String::from_str(name),
                    normalized_name: key,
                    category,
                    icon_emoji: String::new(),
                    reference_price_per_slot: reference_price,
                    max_price_per_slot: max_price,
                    created_at: now,
                    updated_at: now,
                };
                let out = entry.clone();
                self.entries.push(entry);
                assert(self@ == old(self)@.push(out@));
                Ok(out)
            },
        }
    }
}

/// Holds a proposed price to the bounds of a catalog entry: it must not be
/// below the reference price nor above the maximum price.
pub fn validate_price(suggestion: &ServiceSuggestion, proposed: Price) -> (r: Result<
    (),
    BotError,
>)
    ensures
        r is Ok <==> proposed.between(
            suggestion.reference_price_per_slot,
            suggestion.max_price_per_slot,
        ),
        r matches Err(e) ==> e.is(ErrorKind::Validation, "price outside the allowed range"@),
{
    if proposed.is_between(suggestion.reference_price_per_slot, suggestion.max_price_per_slot) {
        Ok(())
    } else {
        Err(BotError::ValidationError(String::from_str("price outside the allowed range")))
    }
}

/// Where no identifier occurs twice, the entry with a given identifier is
/// found at one position only.
pub proof fn lemma_index_of_entry(entries: Seq<ServiceSuggestionView>, id: u128, i: int)
    requires
        well_formed(entries),
        0 <= i < entries.len(),
        entries[i].id == id,
    ensures
        has_entry(entries, id),
        index_of_entry(entries, id) == i,
{
    let j = index_of_entry(entries, id);
    if j < i {
        assert(entries[j].id != entries[i].id);
    } else if i < j {
        assert(entries[i].id != entries[j].id);
    }
}

/// Where no normal form occurs twice, the entry with a given normal form is
/// found at one position only.
pub proof fn lemma_index_of_name(entries: Seq<ServiceSuggestionView>, key: Seq<char>, i: int)
    requires
        well_formed(entries),
        0 <= i < entries.len(),
        entries[i].normalized_name == key,
    ensures
        has_name(entries, key),
        index_of_name(entries, key) == i,
{
    let j = index_of_name(entries, key);
    if j < i {
        assert(entries[j].normalized_name != entries[i].normalized_name);
    } else if i < j {
        assert(entries[i].normalized_name != entries[j].normalized_name);
    }
}

/// Whether `c` can stand in a normal form: it is a blank, or it is neither
/// punctuation, nor white space, nor a capital letter.
pub open spec fn plain(c: char) -> bool {
    c == ' ' || (!is_punctuation(c) && !is_space(c) && !is_upper(c))
}

/// Whether every character of `s` can stand in a normal form.
pub open spec fn all_plain(s: Seq<char>) -> bool {
    forall|k: int| 0 <= k < s.len() ==> plain(#[trigger] s[k])
}

/// Whether `s` does not begin with a blank and holds no two blanks in a row.
pub open spec fn spaced(s: Seq<char>) -> bool {
    &&& s.len() > 0 ==> s[0] != ' '
    &&& forall|k: int| 0 <= k < s.len() - 1 ==> !((#[trigger] s[k]) == ' ' && s[k + 1] == ' ')
}

/// Whether `s` has the shape of a normal form: words of plain characters,
/// separated by single blanks.
pub open spec fn tidy(s: Seq<char>) -> bool {
    &&& all_plain(s)
    &&& spaced(s)
    &&& s.len() > 0 ==> s.last() != ' '
}

proof fn lemma_folded_is_plain(s: Seq<char>)
    ensures
        all_plain(folded(s)),
{
    let keep = |c: char| !is_punctuation(c);
    assert forall|k: int| 0 <= k < folded(s).len() implies plain(#[trigger] folded(s)[k]) by {
        s.lemma_filter_pred(keep, k);
    }
}

proof fn lemma_folded_of_plain(s: Seq<char>)
    requires
        all_plain(s),
    ensures
        folded(s) == s,
    decreases s.len(),
{
    let keep = |c: char| !is_punctuation(c);
    if s.len() == 0 {
        reveal(Seq::filter);
        assert(s.filter(keep) == s);
    } else {
        let init = s.drop_last();
        assert(s == init.push(s.last()));
        assert forall|k: int| 0 <= k < init.len() implies plain(#[trigger] init[k]) by {
            assert(init[k] == s[k]);
        }
        lemma_folded_of_plain(init);
        init.lemma_filter_push(s.last(), keep);
        assert(folded(s) == folded(init).push(s.last()));
    }
}

proof fn lemma_squeezed_is_tidy(t: Seq<char>)
    requires
        all_plain(t),
    ensures
        tidy(squeezed(t)),
    decreases t.len(),
{
    if t.len() > 0 {
        let init = t.drop_last();
        assert forall|k: int| 0 <= k < init.len() implies plain(#[trigger] init[k]) by {
            assert(init[k] == t[k]);
        }
        lemma_squeezed_is_tidy(init);
        let before = squeezed(init);
        let after = squeezed(t);
        if t.last() != ' ' {
            assert forall|k: int| 0 <= k < after.len() implies plain(#[trigger] after[k]) by {
                if k < before.len() {
                    assert(after[k] == before[k]);
                }
            }
            assert forall|k: int| 0 <= k < after.len() - 1 implies !((#[trigger] after[k]) == ' '
                && after[k + 1] == ' ') by {
                if k + 1 < before.len() {
                    assert(after[k] == before[k] && after[k + 1] == before[k + 1]);
                } else if k < before.len() {
                    assert(before[k] == before.last());
                }
            }
            if before.len() > 0 {
                assert(after[0] == before[0]);
            }
        }
    }
}

proof fn lemma_squeezed_of_spaced(r: Seq<char>)
    requires
        spaced(r),
    ensures
        squeezed(r) == (if r.len() > 0 && r.last() == ' ' {
            r.drop_last()
        } else {
            r
        }),
    decreases r.len(),
{
    if r.len() > 0 {
        let init = r.drop_last();
        assert(spaced(init)) by {
            if init.len() > 0 {
                assert(init[0] == r[0]);
            }
            assert forall|k: int| 0 <= k < init.len() - 1 implies !((#[trigger] init[k]) == ' '
                && init[k + 1] == ' ') by {
                assert(init[k] == r[k] && init[k + 1] == r[k + 1]);
            }
        }
        lemma_squeezed_of_spaced(init);
        if init.len() > 0 {
            if init.last() == ' ' {
                assert(init.len() >= 2) by {
                    assert(init[0] == r[0]);
                }
                assert(init.drop_last().push(' ') == init);
            }
        }
        assert(init.push(r.last()) == r);
    }
}

/// A normal form has the shape of one.
pub proof fn lemma_normalized_is_tidy(name: Seq<char>)
    ensures
        tidy(normalized(name)),
{
    lemma_folded_is_plain(name);
    lemma_squeezed_is_tidy(folded(name));
}

/// A text that has the shape of a normal form is its own normal form.
pub proof fn lemma_tidy_is_normalized(name: Seq<char>)
    requires
        tidy(name),
    ensures
        normalized(name) == name,
{
    lemma_folded_of_plain(name);
    lemma_squeezed_of_spaced(name);
}

/// Bringing a name to its normal form twice gives what doing it once gives.
pub proof fn lemma_normalized_is_idempotent(name: Seq<char>)
    ensures
        normalized(normalized(name)) == normalized(name),
{
    lemma_normalized_is_tidy(name);
    lemma_tidy_is_normalized(normalized(name));
}

} // verus!
