use vstd::prelude::*;

use crate::config::{
    AIProviderConfig, BridgeConfig, BridgeConfigV, McpServerConfig, McpServersConfig, ModelConfig,
    ModelsConfig, ProvidersConfig,
};
use crate::json::{Json, JsonV};
use crate::numtext::text_as_u64;

verus! {

/// Named error conditions of the configuration store.
#[derive(Clone, Copy, Debug, PartialEq, Eq, Structural)]
pub enum StoreError {
    /// A duplicate id or name was offered on add or update.
    Conflict,
    /// The id offered on update or delete is absent.
    NotFound,
}

impl StoreError {
    /// A short human-readable description of the condition.
    pub fn message(&self) -> (r: &'static str)
        ensures
            *self == StoreError::Conflict ==> r@ == "already exists"@,
            *self == StoreError::NotFound ==> r@ == "not found"@,
    {
        match self {
            StoreError::Conflict => "already exists",
            StoreError::NotFound => "not found",
        }
    }
}

// ===== providers =====

pub open spec fn has_provider_id(s: Seq<AIProviderConfig>, id: Seq<char>) -> bool {
    exists|i: int| 0 <= i < s.len() && s[i].id@ == id
}

pub open spec fn has_provider_name(s: Seq<AIProviderConfig>, name: Seq<char>) -> bool {
    exists|i: int| 0 <= i < s.len() && s[i].name@ == name
}

/// Another provider (a different id) already carries `name`.
pub open spec fn provider_name_collides(
    s: Seq<AIProviderConfig>,
    id: Seq<char>,
    name: Seq<char>,
) -> bool {
    exists|i: int| 0 <= i < s.len() && s[i].id@ != id && s[i].name@ == name
}

/// Index of the first entry carrying `id`, or -1 when none does.
pub open spec fn provider_idx(s: Seq<AIProviderConfig>, id: Seq<char>) -> int
    decreases s.len(),
{
    if s.len() == 0 {
        -1
    } else if s[0].id@ == id {
        0
    } else {
        let r = provider_idx(s.skip(1), id);
        if r < 0 {
            -1
        } else {
            r + 1
        }
    }
}

proof fn lemma_provider_idx_at(s: Seq<AIProviderConfig>, id: Seq<char>, i: int)
    requires
        0 <= i < s.len(),
        s[i].id@ == id,
        forall|j: int| 0 <= j < i ==> s[j].id@ != id,
    ensures
        provider_idx(s, id) == i,
    decreases i,
{
    if i > 0 {
        lemma_provider_idx_at(s.skip(1), id, i - 1);
    }
}

/// Appends a provider, rejecting a duplicate id or a duplicate name.
pub fn add_provider(cfg: ProvidersConfig, provider: AIProviderConfig) -> (r: Result<ProvidersConfig, StoreError>)
    ensures
        match r {
            Ok(c) => {
                &&& !has_provider_id(cfg.providers@, provider.id@)
                &&& !has_provider_name(cfg.providers@, provider.name@)
                &&& c.version == cfg.version
                &&& c.providers@ == cfg.providers@.push(provider)
            },
            Err(e) => {
                &&& e == StoreError::Conflict
                &&& (has_provider_id(cfg.providers@, provider.id@) || has_provider_name(
                    cfg.providers@,
                    provider.name@,
                ))
            },
        },
{
    let mut c = cfg;
    let n = c.providers.len();
    let mut i: usize = 0;
    while i < n
        invariant
            c == cfg,
            n == cfg.providers@.len(),
            0 <= i <= n,
            forall|j: int| 0 <= j < i ==> cfg.providers@[j].id@ != provider.id@,
        decreases n - i,
    {
        if c.providers[i].id == provider.id {
            proof {
                assert(cfg.providers@[i as int].id@ == provider.id@);
            }
            return Err(StoreError::Conflict);
        }
        i += 1;
    }
    let mut k: usize = 0;
    while k < n
        invariant
            c == cfg,
            n == cfg.providers@.len(),
            0 <= k <= n,
            forall|j: int| 0 <= j < k ==> cfg.providers@[j].name@ != provider.name@,
        decreases n - k,
    {
        if c.providers[k].name == provider.name {
            proof {
                assert(cfg.providers@[k as int].name@ == provider.name@);
            }
            return Err(StoreError::Conflict);
        }
        k += 1;
    }
    c.providers.push(provider);
    proof {
        assert(c.providers@ =~= cfg.providers@.push(provider));
    }
    Ok(c)
}

/// Replaces the provider carrying the same id; rejects an absent id,
/// and a name that a different provider already carries. Keeping the
/// provider's own name is no collision.
pub fn update_provider(cfg: ProvidersConfig, provider: AIProviderConfig) -> (r: Result<ProvidersConfig, StoreError>)
    ensures
        match r {
            Ok(c) => {
                &&& has_provider_id(cfg.providers@, provider.id@)
                &&& !provider_name_collides(cfg.providers@, provider.id@, provider.name@)
                &&& c.version == cfg.version
                &&& c.providers@ == cfg.providers@.update(provider_idx(cfg.providers@, provider.id@), provider)
            },
            Err(e) => {
                if e == StoreError::NotFound {
                    !has_provider_id(cfg.providers@, provider.id@)
                } else {
                    e == StoreError::Conflict && has_provider_id(cfg.providers@, provider.id@)
                        && provider_name_collides(cfg.providers@, provider.id@, provider.name@)
                }
            },
        },
{
    let mut c = cfg;
    let n = c.providers.len();
    let mut i: usize = 0;
    while i < n
        invariant
            c == cfg,
            n == cfg.providers@.len(),
            0 <= i <= n,
            forall|j: int| 0 <= j < i ==> cfg.providers@[j].id@ != provider.id@,
        decreases n - i,
    {
        if c.providers[i].id == provider.id {
            proof {
                assert(cfg.providers@[i as int].id@ == provider.id@);
            }
            let mut k: usize = 0;
            while k < n
                invariant
                    c == cfg,
                    n == cfg.providers@.len(),
                    0 <= k <= n,
                    forall|j: int|
                        0 <= j < k ==> !(cfg.providers@[j].id@ != provider.id@
                            && cfg.providers@[j].name@ == provider.name@),
                    0 <= i < n,
                    cfg.providers@[i as int].id@ == provider.id@,
                decreases n - k,
            {
                if !(c.providers[k].id == provider.id) && c.providers[k].name == provider.name {
                    proof {
                        assert(cfg.providers@[k as int].id@ != provider.id@
                            && cfg.providers@[k as int].name@ == provider.name@);
                    }
                    return Err(StoreError::Conflict);
                }
                k += 1;
            }
            proof {
                lemma_provider_idx_at(cfg.providers@, provider.id@, i as int);
            }
            c.providers.remove(i);
            c.providers.insert(i, provider);
            proof {
                assert(c.providers@ =~= cfg.providers@.update(i as int, provider));
            }
            return Ok(c);
        }
        i += 1;
    }
    Err(StoreError::NotFound)
}

/// Removes every provider carrying `id`, rejecting an absent id.
pub fn delete_provider(cfg: ProvidersConfig, id: &String) -> (r: Result<ProvidersConfig, StoreError>)
    ensures
        match r {
            Ok(c) => {
                &&& has_provider_id(cfg.providers@, id@)
                &&& c.version == cfg.version
                &&& c.providers@ == cfg.providers@.filter(|x: AIProviderConfig| x.id@ != id@)
            },
            Err(e) => {
                &&& e == StoreError::NotFound
                &&& !has_provider_id(cfg.providers@, id@)
            },
        },
{
    let mut c = cfg;
    let n0 = c.providers.len();
    let ghost orig = c.providers@;
    let ghost keep = |x: AIProviderConfig| x.id@ != id@;
    let mut i: usize = 0;
    let mut j: usize = 0;
    let mut found = false;
    proof {
        reveal(Seq::filter);
        assert(orig.take(0).filter(keep) =~= Seq::empty());
        assert(orig.skip(0) =~= orig);
    }
    while j < n0
        invariant
            orig == cfg.providers@,
            c.version == cfg.version,
            n0 == orig.len(),
            j <= orig.len(),
            i <= j,
            i == orig.take(j as int).filter(keep).len(),
            c.providers@ =~= orig.take(j as int).filter(keep) + orig.skip(j as int),
            keep == (|x: AIProviderConfig| x.id@ != id@),
            found <==> exists|k: int| 0 <= k < j && orig[k].id@ == id@,
        decreases orig.len() - j,
    {
        proof {
            assert(orig.take(j as int + 1).drop_last() =~= orig.take(j as int));
            assert(orig.take(j as int + 1).last() == orig[j as int]);
            assert(c.providers@[i as int] == orig[j as int]);
        }
        if c.providers[i].id == *id {
            c.providers.remove(i);
            found = true;
            proof {
                reveal(Seq::filter);
                let x = orig[j as int];
                assert(!keep(x));
                assert(orig.take(j as int + 1).filter(keep) =~= orig.take(j as int).filter(keep));
                assert(c.providers@ =~= orig.take(j as int + 1).filter(keep) + orig.skip(
                    j as int + 1,
                ));
            }
        } else {
            i += 1;
            proof {
                reveal(Seq::filter);
                let x = orig[j as int];
                assert(keep(x));
                assert(orig.take(j as int + 1).filter(keep) =~= orig.take(j as int).filter(
                    keep,
                ).push(x));
                assert(c.providers@ =~= orig.take(j as int + 1).filter(keep) + orig.skip(
                    j as int + 1,
                ));
            }
        }
        j += 1;
    }
    proof {
        reveal(Seq::filter);
        assert(orig.take(orig.len() as int) =~= orig);
        assert(orig.skip(orig.len() as int) =~= Seq::<AIProviderConfig>::empty());
        assert(c.providers@ =~= orig.filter(keep));
    }
    if found {
        Ok(c)
    } else {
        Err(StoreError::NotFound)
    }
}

// ===== models =====

pub open spec fn has_model_id(s: Seq<ModelConfig>, id: Seq<char>) -> bool {
    exists|i: int| 0 <= i < s.len() && s[i].id@ == id
}

/// Index of the first entry carrying `id`, or -1 when none does.
pub open spec fn model_idx(s: Seq<ModelConfig>, id: Seq<char>) -> int
    decreases s.len(),
{
    if s.len() == 0 {
        -1
    } else if s[0].id@ == id {
        0
    } else {
        let r = model_idx(s.skip(1), id);
        if r < 0 {
            -1
        } else {
            r + 1
        }
    }
}

proof fn lemma_model_idx_at(s: Seq<ModelConfig>, id: Seq<char>, i: int)
    requires
        0 <= i < s.len(),
        s[i].id@ == id,
        forall|j: int| 0 <= j < i ==> s[j].id@ != id,
    ensures
        model_idx(s, id) == i,
    decreases i,
{
    if i > 0 {
        lemma_model_idx_at(s.skip(1), id, i - 1);
    }
}

/// Appends a model, rejecting a duplicate id.
pub fn add_model(cfg: ModelsConfig, model: ModelConfig) -> (r: Result<ModelsConfig, StoreError>)
    ensures
        match r {
            Ok(c) => {
                &&& !has_model_id(cfg.models@, model.id@)
                &&& c.version == cfg.version
                &&& c.models@ == cfg.models@.push(model)
            },
            Err(e) => {
                &&& e == StoreError::Conflict
                &&& has_model_id(cfg.models@, model.id@)
            },
        },
{
    let mut c = cfg;
    let n = c.models.len();
    let mut i: usize = 0;
    while i < n
        invariant
            c == cfg,
            n == cfg.models@.len(),
            0 <= i <= n,
            forall|j: int| 0 <= j < i ==> cfg.models@[j].id@ != model.id@,
        decreases n - i,
    {
        if c.models[i].id == model.id {
            proof {
                assert(cfg.models@[i as int].id@ == model.id@);
            }
            return Err(StoreError::Conflict);
        }
        i += 1;
    }
    c.models.push(model);
    proof {
        assert(c.models@ =~= cfg.models@.push(model));
    }
    Ok(c)
}

/// Replaces the model carrying the same id, rejecting an absent id.
pub fn update_model(cfg: ModelsConfig, model: ModelConfig) -> (r: Result<ModelsConfig, StoreError>)
    ensures
        match r {
            Ok(c) => {
                &&& has_model_id(cfg.models@, model.id@)
                &&& c.version == cfg.version
                &&& c.models@ == cfg.models@.update(model_idx(cfg.models@, model.id@), model)
            },
            Err(e) => {
                &&& e == StoreError::NotFound
                &&& !has_model_id(cfg.models@, model.id@)
            },
        },
{
    let mut c = cfg;
    let n = c.models.len();
    let mut i: usize = 0;
    while i < n
        invariant
            c == cfg,
            n == cfg.models@.len(),
            0 <= i <= n,
            forall|j: int| 0 <= j < i ==> cfg.models@[j].id@ != model.id@,
        decreases n - i,
    {
        if c.models[i].id == model.id {
            proof {
                assert(cfg.models@[i as int].id@ == model.id@);
                lemma_model_idx_at(cfg.models@, model.id@, i as int);
            }
            c.models.remove(i);
            c.models.insert(i, model);
            proof {
                assert(c.models@ =~= cfg.models@.update(i as int, model));
            }
            return Ok(c);
        }
        i += 1;
    }
    Err(StoreError::NotFound)
}

/// Removes every model carrying `id`, rejecting an absent id.
pub fn delete_model(cfg: ModelsConfig, id: &String) -> (r: Result<ModelsConfig, StoreError>)
    ensures
        match r {
            Ok(c) => {
                &&& has_model_id(cfg.models@, id@)
                &&& c.version == cfg.version
                &&& c.models@ == cfg.models@.filter(|x: ModelConfig| x.id@ != id@)
            },
            Err(e) => {
                &&& e == StoreError::NotFound
                &&& !has_model_id(cfg.models@, id@)
            },
        },
{
    let mut c = cfg;
    let n0 = c.models.len();
    let ghost orig = c.models@;
    let ghost keep = |x: ModelConfig| x.id@ != id@;
    let mut i: usize = 0;
    let mut j: usize = 0;
    let mut found = false;
    proof {
        reveal(Seq::filter);
        assert(orig.take(0).filter(keep) =~= Seq::empty());
        assert(orig.skip(0) =~= orig);
    }
    while j < n0
        invariant
            orig == cfg.models@,
            c.version == cfg.version,
            n0 == orig.len(),
            j <= orig.len(),
            i <= j,
            i == orig.take(j as int).filter(keep).len(),
            c.models@ =~= orig.take(j as int).filter(keep) + orig.skip(j as int),
            keep == (|x: ModelConfig| x.id@ != id@),
            found <==> exists|k: int| 0 <= k < j && orig[k].id@ == id@,
        decreases orig.len() - j,
    {
        proof {
            assert(orig.take(j as int + 1).drop_last() =~= orig.take(j as int));
            assert(orig.take(j as int + 1).last() == orig[j as int]);
            assert(c.models@[i as int] == orig[j as int]);
        }
        if c.models[i].id == *id {
            c.models.remove(i);
            found = true;
            proof {
                reveal(Seq::filter);
                let x = orig[j as int];
                assert(!keep(x));
                assert(orig.take(j as int + 1).filter(keep) =~= orig.take(j as int).filter(keep));
                assert(c.models@ =~= orig.take(j as int + 1).filter(keep) + orig.skip(
                    j as int + 1,
                ));
            }
        } else {
            i += 1;
            proof {
                reveal(Seq::filter);
                let x = orig[j as int];
                assert(keep(x));
                assert(orig.take(j as int + 1).filter(keep) =~= orig.take(j as int).filter(
                    keep,
                ).push(x));
                assert(c.models@ =~= orig.take(j as int + 1).filter(keep) + orig.skip(
                    j as int + 1,
                ));
            }
        }
        j += 1;
    }
    proof {
        reveal(Seq::filter);
        assert(orig.take(orig.len() as int) =~= orig);
        assert(orig.skip(orig.len() as int) =~= Seq::<ModelConfig>::empty());
        assert(c.models@ =~= orig.filter(keep));
    }
    if found {
        Ok(c)
    } else {
        Err(StoreError::NotFound)
    }
}

// ===== servers =====

pub open spec fn has_mcp_id(s: Seq<McpServerConfig>, id: Seq<char>) -> bool {
    exists|i: int| 0 <= i < s.len() && s[i].id@ == id
}

pub open spec fn has_mcp_name(s: Seq<McpServerConfig>, name: Seq<char>) -> bool {
    exists|i: int| 0 <= i < s.len() && s[i].name@ == name
}

/// Another server (a different id) already carries `name`.
pub open spec fn mcp_name_collides(s: Seq<McpServerConfig>, id: Seq<char>, name: Seq<char>) -> bool {
    exists|i: int| 0 <= i < s.len() && s[i].id@ != id && s[i].name@ == name
}

/// Index of the first entry carrying `id`, or -1 when none does.
pub open spec fn mcp_idx(s: Seq<McpServerConfig>, id: Seq<char>) -> int
    decreases s.len(),
{
    if s.len() == 0 {
        -1
    } else if s[0].id@ == id {
        0
    } else {
        let r = mcp_idx(s.skip(1), id);
        if r < 0 {
            -1
        } else {
            r + 1
        }
    }
}

proof fn lemma_mcp_idx_at(s: Seq<McpServerConfig>, id: Seq<char>, i: int)
    requires
        0 <= i < s.len(),
        s[i].id@ == id,
        forall|j: int| 0 <= j < i ==> s[j].id@ != id,
    ensures
        mcp_idx(s, id) == i,
    decreases i,
{
    if i > 0 {
        lemma_mcp_idx_at(s.skip(1), id, i - 1);
    }
}

/// Appends an MCP server, rejecting a duplicate id or a duplicate name.
pub fn add_mcp_server(cfg: McpServersConfig, server: McpServerConfig) -> (r: Result<
    McpServersConfig,
    StoreError,
>)
    ensures
        match r {
            Ok(c) => {
                &&& !has_mcp_id(cfg.servers@, server.id@)
                &&& !has_mcp_name(cfg.servers@, server.name@)
                &&& c.version == cfg.version
                &&& c.servers@ == cfg.servers@.push(server)
            },
            Err(e) => {
                &&& e == StoreError::Conflict
                &&& (has_mcp_id(cfg.servers@, server.id@) || has_mcp_name(
                    cfg.servers@,
                    server.name@,
                ))
            },
        },
{
    let mut c = cfg;
    let n = c.servers.len();
    let mut i: usize = 0;
    while i < n
        invariant
            c == cfg,
            n == cfg.servers@.len(),
            0 <= i <= n,
            forall|j: int| 0 <= j < i ==> cfg.servers@[j].id@ != server.id@,
        decreases n - i,
    {
        if c.servers[i].id == server.id {
            proof {
                assert(cfg.servers@[i as int].id@ == server.id@);
            }
            return Err(StoreError::Conflict);
        }
        i += 1;
    }
    let mut k: usize = 0;
    while k < n
        invariant
            c == cfg,
            n == cfg.servers@.len(),
            0 <= k <= n,
            forall|j: int| 0 <= j < k ==> cfg.servers@[j].name@ != server.name@,
        decreases n - k,
    {
        if c.servers[k].name == server.name {
            proof {
                assert(cfg.servers@[k as int].name@ == server.name@);
            }
            return Err(StoreError::Conflict);
        }
        k += 1;
    }
    c.servers.push(server);
    proof {
        assert(c.servers@ =~= cfg.servers@.push(server));
    }
    Ok(c)
}

/// Replaces the server carrying the same id; rejects an absent id, and
/// a name that a different server already carries. Keeping the server's
/// own name is no collision.
pub fn update_mcp_server(cfg: McpServersConfig, server: McpServerConfig) -> (r: Result<
    McpServersConfig,
    StoreError,
>)
    ensures
        match r {
            Ok(c) => {
                &&& has_mcp_id(cfg.servers@, server.id@)
                &&& !mcp_name_collides(cfg.servers@, server.id@, server.name@)
                &&& c.version == cfg.version
                &&& c.servers@ == cfg.servers@.update(mcp_idx(cfg.servers@, server.id@), server)
            },
            Err(e) => {
                if e == StoreError::NotFound {
                    !has_mcp_id(cfg.servers@, server.id@)
                } else {
                    e == StoreError::Conflict && has_mcp_id(cfg.servers@, server.id@)
                        && mcp_name_collides(cfg.servers@, server.id@, server.name@)
                }
            },
        },
{
    let mut c = cfg;
    let n = c.servers.len();
    let mut i: usize = 0;
    while i < n
        invariant
            c == cfg,
            n == cfg.servers@.len(),
            0 <= i <= n,
            forall|j: int| 0 <= j < i ==> cfg.servers@[j].id@ != server.id@,
        decreases n - i,
    {
        if c.servers[i].id == server.id {
            proof {
                assert(cfg.servers@[i as int].id@ == server.id@);
            }
            let mut k: usize = 0;
            while k < n
                invariant
                    c == cfg,
                    n == cfg.servers@.len(),
                    0 <= k <= n,
                    forall|j: int|
                        0 <= j < k ==> !(cfg.servers@[j].id@ != server.id@ && cfg.servers@[j].name@
                            == server.name@),
                    0 <= i < n,
                    cfg.servers@[i as int].id@ == server.id@,
                decreases n - k,
            {
                if !(c.servers[k].id == server.id) && c.servers[k].name == server.name {
                    proof {
                        assert(cfg.servers@[k as int].id@ != server.id@ && cfg.servers@[k as int].name@
                            == server.name@);
                    }
                    return Err(StoreError::Conflict);
                }
                k += 1;
            }
            proof {
                lemma_mcp_idx_at(cfg.servers@, server.id@, i as int);
            }
            c.servers.remove(i);
            c.servers.insert(i, server);
            proof {
                assert(c.servers@ =~= cfg.servers@.update(i as int, server));
            }
            return Ok(c);
        }
        i += 1;
    }
    Err(StoreError::NotFound)
}

/// Removes every server carrying `id`, rejecting an absent id.
pub fn delete_mcp_server(cfg: McpServersConfig, id: &String) -> (r: Result<McpServersConfig, StoreError>)
    ensures
        match r {
            Ok(c) => {
                &&& has_mcp_id(cfg.servers@, id@)
                &&& c.version == cfg.version
                &&& c.servers@ == cfg.servers@.filter(|x: McpServerConfig| x.id@ != id@)
            },
            Err(e) => {
                &&& e == StoreError::NotFound
                &&& !has_mcp_id(cfg.servers@, id@)
            },
        },
{
    let mut c = cfg;
    let n0 = c.servers.len();
    let ghost orig = c.servers@;
    let ghost keep = |x: McpServerConfig| x.id@ != id@;
    let mut i: usize = 0;
    let mut j: usize = 0;
    let mut found = false;
    proof {
        reveal(Seq::filter);
        assert(orig.take(0).filter(keep) =~= Seq::empty());
        assert(orig.skip(0) =~= orig);
    }
    while j < n0
        invariant
            orig == cfg.servers@,
            c.version == cfg.version,
            n0 == orig.len(),
            j <= orig.len(),
            i <= j,
            i == orig.take(j as int).filter(keep).len(),
            c.servers@ =~= orig.take(j as int).filter(keep) + orig.skip(j as int),
            keep == (|x: McpServerConfig| x.id@ != id@),
            found <==> exists|k: int| 0 <= k < j && orig[k].id@ == id@,
        decreases orig.len() - j,
    {
        proof {
            assert(orig.take(j as int + 1).drop_last() =~= orig.take(j as int));
            assert(orig.take(j as int + 1).last() == orig[j as int]);
            assert(c.servers@[i as int] == orig[j as int]);
        }
        if c.servers[i].id == *id {
            c.servers.remove(i);
            found = true;
            proof {
                reveal(Seq::filter);
                let x = orig[j as int];
                assert(!keep(x));
                assert(orig.take(j as int + 1).filter(keep) =~= orig.take(j as int).filter(keep));
                assert(c.servers@ =~= orig.take(j as int + 1).filter(keep) + orig.skip(
                    j as int + 1,
                ));
            }
        } else {
            i += 1;
            proof {
                reveal(Seq::filter);
                let x = orig[j as int];
                assert(keep(x));
                assert(orig.take(j as int + 1).filter(keep) =~= orig.take(j as int).filter(
                    keep,
                ).push(x));
                assert(c.servers@ =~= orig.take(j as int + 1).filter(keep) + orig.skip(
                    j as int + 1,
                ));
            }
        }
        j += 1;
    }
    proof {
        reveal(Seq::filter);
        assert(orig.take(orig.len() as int) =~= orig);
        assert(orig.skip(orig.len() as int) =~= Seq::<McpServerConfig>::empty());
        assert(c.servers@ =~= orig.filter(keep));
    }
    if found {
        Ok(c)
    } else {
        Err(StoreError::NotFound)
    }
}

// ===== partial update of the main document =====

/// The port after a patch: an integer-valued `port` member is taken
/// modulo 2^16, as a narrowing cast does; anything else leaves the
/// field alone.
pub open spec fn patched_port(old_port: u16, patch: Json) -> u16 {
    match patch.lookup("port"@) {
        Some(JsonV::Num(t)) => match text_as_u64(t) {
            Some(n) => n as u16,
            None => old_port,
        },
        _ => old_port,
    }
}

/// A string member replaces the field; any other member, or an absent
/// key, leaves it alone.
pub open spec fn patched_str(old_val: Seq<char>, patch: Json, key: Seq<char>) -> Seq<char> {
    match patch.lookup(key) {
        Some(JsonV::Str(s)) => s,
        _ => old_val,
    }
}

/// An optional identifier field: a string member replaces the field, a
/// null member clears it, and anything else -- a type-mismatched member
/// or an absent key -- leaves it alone.
pub open spec fn patched_opt_str(old_val: Option<Seq<char>>, patch: Json, key: Seq<char>) -> Option<
    Seq<char>,
> {
    match patch.lookup(key) {
        Some(JsonV::Str(s)) => Some(s),
        Some(JsonV::Null) => None,
        _ => old_val,
    }
}

/// A boolean member replaces the field; any other member, or an absent
/// key, leaves it alone.
pub open spec fn patched_bool(old_val: bool, patch: Json, key: Seq<char>) -> bool {
    match patch.lookup(key) {
        Some(JsonV::Bool(b)) => b,
        _ => old_val,
    }
}

/// The whole document after a partial update: only recognized,
/// well-typed members change a field; unknown keys and type-mismatched
/// values are ignored; the schema version never changes.
pub open spec fn patched_config(old_cfg: BridgeConfigV, patch: Json) -> BridgeConfigV {
    BridgeConfigV {
        version: old_cfg.version,
        port: patched_port(old_cfg.port, patch),
        host: patched_str(old_cfg.host, patch, "host"@),
        log_level: patched_str(old_cfg.log_level, patch, "logLevel"@),
        default_provider_id: patched_opt_str(
            old_cfg.default_provider_id,
            patch,
            "defaultProviderId"@,
        ),
        default_chat_model_id: patched_opt_str(
            old_cfg.default_chat_model_id,
            patch,
            "defaultChatModelId"@,
        ),
        default_embedding_model_id: patched_opt_str(
            old_cfg.default_embedding_model_id,
            patch,
            "defaultEmbeddingModelId"@,
        ),
        auto_start: patched_bool(old_cfg.auto_start, patch, "autoStart"@),
        minimize_to_tray: patched_bool(old_cfg.minimize_to_tray, patch, "minimizeToTray"@),
    }
}

fn patch_string_field(field: &mut String, patch: &Json, key: &str)
    ensures
        final(field)@ == patched_str(old(field)@, *patch, key@),
{
    match patch.get(key) {
        Some(Json::Str(s)) => {
            *field = s.clone();
        },
        _ => {},
    }
}

fn patch_opt_string_field(field: &mut Option<String>, patch: &Json, key: &str)
    ensures
        final(field).deep_view() == patched_opt_str(old(field).deep_view(), *patch, key@),
{
    match patch.get(key) {
        Some(Json::Str(s)) => {
            *field = Some(s.clone());
        },
        Some(Json::Null) => {
            *field = None;
        },
        _ => {},
    }
}

fn patch_bool_field(field: &mut bool, patch: &Json, key: &str)
    ensures
        *final(field) == patched_bool(*old(field), *patch, key@),
{
    match patch.get(key) {
        Some(Json::Bool(b)) => {
            *field = *b;
        },
        _ => {},
    }
}

/// Applies a loosely-typed partial update to the main document:
/// recognized keys of the expected JSON type replace their field,
/// everything else is ignored.
pub fn update_config_fields(current: BridgeConfig, patch: &Json) -> (r: BridgeConfig)
    ensures
        r.deep_view() == patched_config(current.deep_view(), *patch),
{
    let mut c = current;
    match patch.get("port") {
        Some(Json::Num(t)) => {
            let chars = crate::codec::str_to_chars(t.as_str());
            match crate::numtext::parse_u64_text(&chars) {
                Some(n) => {
                    c.port = #[verifier::truncate] (n as u16);
                },
                None => {},
            }
        },
        _ => {},
    }
    patch_string_field(&mut c.host, patch, "host");
    patch_string_field(&mut c.log_level, patch, "logLevel");
    patch_opt_string_field(&mut c.default_provider_id, patch, "defaultProviderId");
    patch_opt_string_field(&mut c.default_chat_model_id, patch, "defaultChatModelId");
    patch_opt_string_field(&mut c.default_embedding_model_id, patch, "defaultEmbeddingModelId");
    patch_bool_field(&mut c.auto_start, patch, "autoStart");
    patch_bool_field(&mut c.minimize_to_tray, patch, "minimizeToTray");
    c
}

} // verus!
