use crate::ai::types::{ModelView, ProviderModel, ProviderModelView};
use vstd::prelude::*;

verus! {

/// Some entry of `entries` has the code `code`.
pub open spec fn has_code(entries: Seq<ProviderModelView>, code: Seq<char>) -> bool {
    exists|i: int| 0 <= i < entries.len() && (#[trigger] entries[i]).model.code == code
}

/// A position at which `entries` holds the code `code`, where there is one.
pub open spec fn position(entries: Seq<ProviderModelView>, code: Seq<char>) -> int {
    choose|i: int| 0 <= i < entries.len() && (#[trigger] entries[i]).model.code == code
}

/// The entry that the code `code` maps to.
pub open spec fn lookup(entries: Seq<ProviderModelView>, code: Seq<char>) -> Option<
    ProviderModelView,
> {
    if has_code(entries, code) {
        Some(entries[position(entries, code)])
    } else {
        None
    }
}

/// No code occurs in two entries.
pub open spec fn distinct_codes(entries: Seq<ProviderModelView>) -> bool {
    forall|i: int, j: int|
        0 <= i < j < entries.len() ==> (#[trigger] entries[i]).model.code != (
        #[trigger] entries[j]).model.code
}

/// The entries after `entry` was registered: it takes the place of the entry
/// with its code where there is one (the last registration wins), and else
/// goes to the end.
pub open spec fn register(entries: Seq<ProviderModelView>, entry: ProviderModelView) -> Seq<
    ProviderModelView,
> {
    if has_code(entries, entry.model.code) {
        entries.update(position(entries, entry.model.code), entry)
    } else {
        entries.push(entry)
    }
}

/// The entries after the models of one provider were registered in order.
pub open spec fn register_catalog(
    entries: Seq<ProviderModelView>,
    provider: usize,
    models: Seq<ModelView>,
) -> Seq<ProviderModelView>
    decreases models.len(),
{
    if models.len() == 0 {
        entries
    } else {
        register(
            register_catalog(entries, provider, models.drop_last()),
            ProviderModelView { provider, model: models.last() },
        )
    }
}

/// The registry of a list of catalogs: every provider in configuration
/// order, and the models of each in the order in which it advertises them.
pub open spec fn registry_of(catalogs: Seq<Seq<ModelView>>) -> Seq<ProviderModelView>
    decreases catalogs.len(),
{
    if catalogs.len() == 0 {
        Seq::empty()
    } else {
        register_catalog(
            registry_of(catalogs.drop_last()),
            (catalogs.len() - 1) as usize,
            catalogs.last(),
        )
    }
}

/// The mapping from model code to the provider and model that serve it. It
/// is filled once at startup and only read afterwards. The entries keep the
/// order of their first registration, so that "the first entry" is the same
/// on every call.
#[derive(Debug)]
pub struct ModelsByCode {
    entries: Vec<ProviderModel>,
}

impl View for ModelsByCode {
    type V = Seq<ProviderModelView>;

    closed spec fn view(&self) -> Seq<ProviderModelView> {
        Seq::new(self.entries@.len(), |i: int| self.entries@[i]@)
    }
}

impl ModelsByCode {
    /// Every code is held once.
    #[verifier::type_invariant]
    spec fn single_codes(self) -> bool {
        distinct_codes(self@)
    }

    /// A registry without entries.
    pub fn new() -> (models: ModelsByCode)
        ensures
            models@ == Seq::<ProviderModelView>::empty(),
    {
        ModelsByCode { entries: Vec::new() }
    }

    /// The number of codes.
    pub fn len(&self) -> (n: usize)
        ensures
            n == self@.len(),
    {
        self.entries.len()
    }

    /// Whether there is no code at all.
    pub fn is_empty(&self) -> (empty: bool)
        ensures
            empty == (self@.len() == 0),
    {
        self.entries.len() == 0
    }

    /// The entry registered first, if there is any.
    pub fn first(&self) -> (entry: Option<&ProviderModel>)
        ensures
            match entry {
                Some(found) => self@.len() > 0 && found@ == self@[0],
                None => self@.len() == 0,
            },
    {
        if self.entries.len() == 0 {
            None
        } else {
            Some(&self.entries[0])
        }
    }

    /// Where the code stands among the entries, if it is there.
    fn find(&self, code: &String) -> (at: Option<usize>)
        ensures
            match at {
                Some(i) => i < self@.len() && self@[i as int].model.code == code@,
                None => !has_code(self@, code@),
            },
    {
        let mut i: usize = 0;
        while i < self.entries.len()
            invariant
                i <= self.entries@.len(),
                forall|k: int| 0 <= k < i ==> (#[trigger] self@[k]).model.code != code@,
            decreases self.entries@.len() - i,
        {
            if self.entries[i].model.code == *code {
                return Some(i);
            }
            i += 1;
        }
        None
    }

    /// The entry that `code` maps to, if it is registered.
    pub fn get(&self, code: &String) -> (entry: Option<&ProviderModel>)
        ensures
            match entry {
                Some(found) => lookup(self@, code@) == Some(found@) && found@.model.code == code@,
                None => lookup(self@, code@) is None && !has_code(self@, code@),
            },
    {
        match self.find(code) {
            Some(i) => {
                proof {
                    use_type_invariant(self);
                    lemma_position_is_unique(self@, code@, i as int);
                }
                Some(&self.entries[i])
            },
            None => None,
        }
    }

    /// Registers `entry` under the code of its model. An entry that held that
    /// code before is replaced, and the result says whether there was one.
    pub fn insert(&mut self, entry: ProviderModel) -> (replaced: bool)
        ensures
            final(self)@ == register(old(self)@, entry@),
            distinct_codes(final(self)@),
            replaced == has_code(old(self)@, entry@.model.code),
    {
        proof {
            use_type_invariant(&*self);
            lemma_register_keeps_distinct(self@, entry@);
        }
        let at = self.find(&entry.model.code);
        let ghost before = self@;
        let ghost added = entry@;
        let mut entries: Vec<ProviderModel> = Vec::new();
        std::mem::swap(&mut self.entries, &mut entries);
        assert(Seq::new(entries@.len(), |i: int| entries@[i]@) =~= before);
        let replaced = match at {
            Some(i) => {
                proof {
                    lemma_position_is_unique(before, added.model.code, i as int);
                }
                entries.set(i, entry);
                true
            },
            None => {
                entries.push(entry);
                false
            },
        };
        assert(Seq::new(entries@.len(), |i: int| entries@[i]@) =~= register(before, added));
        std::mem::swap(&mut self.entries, &mut entries);
        replaced
    }
}

/// Where no code occurs twice, the one position at which a code stands is
/// the position that `lookup` reads.
pub proof fn lemma_position_is_unique(entries: Seq<ProviderModelView>, code: Seq<char>, at: int)
    requires
        distinct_codes(entries),
        0 <= at < entries.len(),
        entries[at].model.code == code,
    ensures
        has_code(entries, code),
        position(entries, code) == at,
        lookup(entries, code) == Some(entries[at]),
{
    let p = position(entries, code);
    assert(0 <= p < entries.len() && entries[p].model.code == code);
    if p < at {
        assert(entries[p].model.code != entries[at].model.code);
    } else if at < p {
        assert(entries[at].model.code != entries[p].model.code);
    }
}

/// Registering an entry keeps every code single.
pub proof fn lemma_register_keeps_distinct(entries: Seq<ProviderModelView>, entry: ProviderModelView)
    requires
        distinct_codes(entries),
    ensures
        distinct_codes(register(entries, entry)),
{
    let after = register(entries, entry);
    if has_code(entries, entry.model.code) {
        let p = position(entries, entry.model.code);
        assert(0 <= p < entries.len() && entries[p].model.code == entry.model.code);
        assert forall|i: int, j: int| 0 <= i < j < after.len() implies (#[trigger] after[i]).model.code
            != (#[trigger] after[j]).model.code by {
            assert(after[i].model.code == entries[i].model.code);
            assert(after[j].model.code == entries[j].model.code);
        }
    } else {
        assert forall|i: int, j: int| 0 <= i < j < after.len() implies (#[trigger] after[i]).model.code
            != (#[trigger] after[j]).model.code by {
            if j == entries.len() {
                assert(entries[i].model.code != entry.model.code);
            } else {
                assert(after[i] == entries[i]);
                assert(after[j] == entries[j]);
            }
        }
    }
}

/// A code that `lookup` finds maps to an entry whose model has that code.
pub proof fn lemma_lookup_returns_code(entries: Seq<ProviderModelView>, code: Seq<char>)
    ensures
        lookup(entries, code) matches Some(entry) ==> entry.model.code == code,
        lookup(entries, code) is Some <==> has_code(entries, code),
{
}

/// After a registration, the registered code maps to the new entry (the
/// last registration wins), and every other code maps to what it mapped to
/// before.
pub proof fn lemma_register_last_wins(
    entries: Seq<ProviderModelView>,
    entry: ProviderModelView,
    code: Seq<char>,
)
    requires
        distinct_codes(entries),
    ensures
        lookup(register(entries, entry), entry.model.code) == Some(entry),
        code != entry.model.code ==> lookup(register(entries, entry), code) == lookup(
            entries,
            code,
        ),
{
    let after = register(entries, entry);
    lemma_register_keeps_distinct(entries, entry);
    let at = if has_code(entries, entry.model.code) {
        position(entries, entry.model.code)
    } else {
        entries.len() as int
    };
    assert(after[at] == entry);
    lemma_position_is_unique(after, entry.model.code, at);
    if code != entry.model.code {
        if has_code(entries, code) {
            let p = position(entries, code);
            assert(after[p] == entries[p]);
            lemma_position_is_unique(entries, code, p);
            lemma_position_is_unique(after, code, p);
        } else {
            if has_code(after, code) {
                let q = position(after, code);
                assert(after[q].model.code == code);
                assert(entries[q].model.code == code);
            }
        }
    }
}

/// The codes after a registration are the codes before it and the
/// registered one.
pub proof fn lemma_register_codes(
    entries: Seq<ProviderModelView>,
    entry: ProviderModelView,
    code: Seq<char>,
)
    ensures
        has_code(register(entries, entry), code) <==> has_code(entries, code) || code
            == entry.model.code,
{
    let after = register(entries, entry);
    if has_code(entries, entry.model.code) {
        let at = position(entries, entry.model.code);
        assert(after[at].model.code == entry.model.code);
        if has_code(entries, code) {
            let p = position(entries, code);
            assert(after[p].model.code == code);
        }
        if has_code(after, code) {
            let q = position(after, code);
            assert(after[q].model.code == code);
            if q != at {
                assert(entries[q].model.code == code);
            }
        }
    } else {
        assert(after[entries.len() as int] == entry);
        if has_code(entries, code) {
            let p = position(entries, code);
            assert(after[p].model.code == code);
        }
        if has_code(after, code) {
            let q = position(after, code);
            assert(after[q].model.code == code);
            if q < entries.len() {
                assert(entries[q].model.code == code);
            }
        }
    }
}

/// Registering a catalog keeps every code single, keeps the codes that were
/// there, and adds the code of each of its models.
pub proof fn lemma_register_catalog(
    entries: Seq<ProviderModelView>,
    provider: usize,
    models: Seq<ModelView>,
)
    requires
        distinct_codes(entries),
    ensures
        distinct_codes(register_catalog(entries, provider, models)),
        forall|code: Seq<char>|
            has_code(entries, code) ==> has_code(
                register_catalog(entries, provider, models),
                code,
            ),
        forall|m: int|
            0 <= m < models.len() ==> has_code(
                register_catalog(entries, provider, models),
                (#[trigger] models[m]).code,
            ),
    decreases models.len(),
{
    if models.len() > 0 {
        let before = register_catalog(entries, provider, models.drop_last());
        let entry = ProviderModelView { provider, model: models.last() };
        lemma_register_catalog(entries, provider, models.drop_last());
        lemma_register_keeps_distinct(before, entry);
        assert forall|code: Seq<char>| has_code(entries, code) implies has_code(
            register(before, entry),
            code,
        ) by {
            lemma_register_codes(before, entry, code);
        }
        assert forall|m: int| 0 <= m < models.len() implies has_code(
            register(before, entry),
            (#[trigger] models[m]).code,
        ) by {
            lemma_register_codes(before, entry, models[m].code);
            if m < models.len() - 1 {
                assert(models.drop_last()[m] == models[m]);
            }
        }
    }
}

/// In the registry built from the catalogs of the providers, every code is
/// held once, every code maps back to the entry whose model carries it, and
/// the code of every advertised model is registered.
pub proof fn lemma_registry_codes_map_back(catalogs: Seq<Seq<ModelView>>)
    ensures
        distinct_codes(registry_of(catalogs)),
        forall|i: int|
            0 <= i < registry_of(catalogs).len() ==> lookup(
                registry_of(catalogs),
                (#[trigger] registry_of(catalogs)[i]).model.code,
            ) == Some(registry_of(catalogs)[i]),
        forall|code: Seq<char>|
            (#[trigger] lookup(registry_of(catalogs), code)) matches Some(entry)
                ==> entry.model.code == code,
        forall|p: int, m: int|
            0 <= p < catalogs.len() && 0 <= m < catalogs[p].len() ==> has_code(
                registry_of(catalogs),
                (#[trigger] catalogs[p][m]).code,
            ),
    decreases catalogs.len(),
{
    let registry = registry_of(catalogs);
    if catalogs.len() > 0 {
        let before = registry_of(catalogs.drop_last());
        let provider = (catalogs.len() - 1) as usize;
        lemma_registry_codes_map_back(catalogs.drop_last());
        lemma_register_catalog(before, provider, catalogs.last());
        assert forall|p: int, m: int|
            0 <= p < catalogs.len() && 0 <= m < catalogs[p].len() implies has_code(
            registry,
            (#[trigger] catalogs[p][m]).code,
        ) by {
            if p < catalogs.len() - 1 {
                assert(catalogs.drop_last()[p] == catalogs[p]);
                assert(has_code(before, catalogs.drop_last()[p][m].code));
            } else {
                assert(catalogs.last()[m] == catalogs[p][m]);
            }
        }
    }
    assert forall|i: int| 0 <= i < registry.len() implies lookup(
        registry,
        (#[trigger] registry[i]).model.code,
    ) == Some(registry[i]) by {
        lemma_position_is_unique(registry, registry[i].model.code, i);
    }
}

/// The catalog advertises the code.
pub open spec fn advertises(models: Seq<ModelView>, code: Seq<char>) -> bool {
    exists|m: int| 0 <= m < models.len() && (#[trigger] models[m]).code == code
}

/// `m` is the last place at which the catalog advertises the code.
pub open spec fn last_advertised_at(models: Seq<ModelView>, m: int, code: Seq<char>) -> bool {
    &&& 0 <= m < models.len()
    &&& models[m].code == code
    &&& forall|k: int| m < k < models.len() ==> (#[trigger] models[k]).code != code
}

/// After a catalog was registered, a code that it advertises maps to the
/// model at the last place at which it advertises it, and every other code
/// maps to what it mapped to before.
pub proof fn lemma_register_catalog_lookup(
    entries: Seq<ProviderModelView>,
    provider: usize,
    models: Seq<ModelView>,
    code: Seq<char>,
)
    requires
        distinct_codes(entries),
    ensures
        !advertises(models, code) ==> lookup(register_catalog(entries, provider, models), code)
            == lookup(entries, code),
        forall|m: int|
            last_advertised_at(models, m, code) ==> lookup(
                register_catalog(entries, provider, models),
                code,
            ) == Some(ProviderModelView { provider, model: #[trigger] models[m] }),
    decreases models.len(),
{
    if models.len() > 0 {
        let shorter = models.drop_last();
        let before = register_catalog(entries, provider, shorter);
        let entry = ProviderModelView { provider, model: models.last() };
        let after = register_catalog(entries, provider, models);
        lemma_register_catalog(entries, provider, shorter);
        lemma_register_catalog_lookup(entries, provider, shorter, code);
        lemma_register_last_wins(before, entry, code);
        if models.last().code == code {
            assert forall|m: int| last_advertised_at(models, m, code) implies lookup(after, code)
                == Some(ProviderModelView { provider, model: #[trigger] models[m] }) by {
                if m < models.len() - 1 {
                    assert(models[models.len() - 1].code != code);
                }
            }
        } else {
            if advertises(shorter, code) {
                let k = choose|k: int| 0 <= k < shorter.len() && (#[trigger] shorter[k]).code == code;
                assert(models[k].code == code);
            }
            assert forall|m: int| last_advertised_at(models, m, code) implies lookup(after, code)
                == Some(ProviderModelView { provider, model: #[trigger] models[m] }) by {
                assert(shorter[m] == models[m]);
                assert forall|k: int| m < k < shorter.len() implies (#[trigger] shorter[k]).code
                    != code by {
                    assert(shorter[k] == models[k]);
                }
                assert(last_advertised_at(shorter, m, code));
            }
        }
    }
}

/// Across providers the last registration wins: a code maps to the last
/// provider that advertises it, and to the model at the last place at which
/// that provider advertises it.
pub proof fn lemma_registry_last_wins(catalogs: Seq<Seq<ModelView>>, p: int, m: int)
    requires
        catalogs.len() <= usize::MAX,
        0 <= p < catalogs.len(),
        0 <= m < catalogs[p].len(),
        last_advertised_at(catalogs[p], m, catalogs[p][m].code),
        forall|q: int|
            p < q < catalogs.len() ==> !advertises(#[trigger] catalogs[q], catalogs[p][m].code),
    ensures
        lookup(registry_of(catalogs), catalogs[p][m].code) == Some(
            ProviderModelView { provider: p as usize, model: catalogs[p][m] },
        ),
    decreases catalogs.len(),
{
    let code = catalogs[p][m].code;
    let shorter = catalogs.drop_last();
    let before = registry_of(shorter);
    let provider = (catalogs.len() - 1) as usize;
    lemma_registry_codes_map_back(shorter);
    lemma_register_catalog_lookup(before, provider, catalogs.last(), code);
    if p < catalogs.len() - 1 {
        assert(!advertises(catalogs[catalogs.len() - 1], code));
        assert(shorter[p] == catalogs[p]);
        assert forall|q: int| p < q < shorter.len() implies !advertises(
            #[trigger] shorter[q],
            shorter[p][m].code,
        ) by {
            assert(shorter[q] == catalogs[q]);
        }
        lemma_registry_last_wins(shorter, p, m);
    }
}

/// A code that no provider advertises is not in the registry.
pub proof fn lemma_registry_holds_only_advertised(catalogs: Seq<Seq<ModelView>>, code: Seq<char>)
    requires
        forall|q: int| 0 <= q < catalogs.len() ==> !advertises(#[trigger] catalogs[q], code),
    ensures
        !has_code(registry_of(catalogs), code),
        lookup(registry_of(catalogs), code) is None,
    decreases catalogs.len(),
{
    if catalogs.len() > 0 {
        let shorter = catalogs.drop_last();
        let provider = (catalogs.len() - 1) as usize;
        assert forall|q: int| 0 <= q < shorter.len() implies !advertises(
            #[trigger] shorter[q],
            code,
        ) by {
            assert(shorter[q] == catalogs[q]);
        }
        lemma_registry_holds_only_advertised(shorter, code);
        lemma_registry_codes_map_back(shorter);
        assert(!advertises(catalogs[catalogs.len() - 1], code));
        lemma_register_catalog_lookup(registry_of(shorter), provider, catalogs.last(), code);
    }
}

/// Every entry names a provider below `bound`.
pub open spec fn providers_below(entries: Seq<ProviderModelView>, bound: int) -> bool {
    forall|i: int| 0 <= i < entries.len() ==> (#[trigger] entries[i]).provider < bound
}

/// Registering a catalog of a provider below `bound` keeps every provider
/// below `bound`.
pub proof fn lemma_register_catalog_providers(
    entries: Seq<ProviderModelView>,
    provider: usize,
    models: Seq<ModelView>,
    bound: int,
)
    requires
        providers_below(entries, bound),
        provider < bound,
    ensures
        providers_below(register_catalog(entries, provider, models), bound),
    decreases models.len(),
{
    if models.len() > 0 {
        let before = register_catalog(entries, provider, models.drop_last());
        let entry = ProviderModelView { provider, model: models.last() };
        let after = register(before, entry);
        lemma_register_catalog_providers(entries, provider, models.drop_last(), bound);
        assert forall|i: int| 0 <= i < after.len() implies (#[trigger] after[i]).provider
            < bound by {
            if after[i] != entry {
                assert(after[i] == before[i]);
            }
        }
    }
}

/// Every entry of the registry names one of the providers that it was built
/// from: the provider's position is below the number of catalogs.
pub proof fn lemma_registry_names_configured_providers(catalogs: Seq<Seq<ModelView>>)
    requires
        catalogs.len() <= usize::MAX,
    ensures
        providers_below(registry_of(catalogs), catalogs.len() as int),
    decreases catalogs.len(),
{
    if catalogs.len() > 0 {
        let shorter = catalogs.drop_last();
        lemma_registry_names_configured_providers(shorter);
        let before = registry_of(shorter);
        assert(providers_below(before, catalogs.len() as int)) by {
            assert forall|i: int| 0 <= i < before.len() implies (#[trigger] before[i]).provider
                < catalogs.len() by {
                assert(before[i].provider < shorter.len());
            }
        }
        lemma_register_catalog_providers(
            before,
            (catalogs.len() - 1) as usize,
            catalogs.last(),
            catalogs.len() as int,
        );
    }
}

} // verus!
