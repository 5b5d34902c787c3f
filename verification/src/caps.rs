//! Capability checks of the plugins: an action is allowed when the template context holds the
//! capability `<plugin>:<action>`; and the Luau plugin's chunks, whose every change is such an
//! action.
use vstd::prelude::*;
use crate::text::append_str;
use crate::validators::{callable, decides};

verus! {

broadcast use vstd::string::group_string_axioms;

/// A plugin whose actions are checked against the template's capabilities.
#[derive(Debug, Clone, Copy, PartialEq, Eq, Structural)]
pub enum Plugin {
    Lockdown,
    Sting,
    UserInfo,
    ScheduledExec,
    ObjectStorage,
    Page,
    Luau,
}

/// The prefix of a plugin's capabilities.
pub open spec fn plugin_prefix(p: Plugin) -> Seq<char> {
    match p {
        Plugin::Lockdown => "lockdown"@,
        Plugin::Sting => "sting"@,
        Plugin::UserInfo => "userinfo"@,
        Plugin::ScheduledExec => "scheduledexec"@,
        Plugin::ObjectStorage => "objectstorage"@,
        Plugin::Page => "page"@,
        Plugin::Luau => "luau"@,
    }
}

/// The capability that allows `action` of plugin `p`.
pub open spec fn capability(p: Plugin, action: Seq<char>) -> Seq<char> {
    plugin_prefix(p) + ":"@ + action
}

/// The capability that allows every Luau action.
pub open spec fn luau_all() -> Seq<char> {
    "luau:*"@
}

/// Whether the capabilities decided by `has` allow `action` of plugin `p`: its own capability,
/// or for Luau the capability of every action.
pub open spec fn allowed(p: Plugin, action: Seq<char>, has: spec_fn(Seq<char>) -> bool) -> bool {
    has(capability(p, action)) || (p == Plugin::Luau && has(luau_all()))
}

/// Why an action was refused.
#[derive(Debug)]
pub enum CapError {
    /// The template lacks the capability for the plugin's action.
    Denied { plugin: Plugin, action: String },
    /// The template lacks the capabilities for a data store's action.
    DatastoreDenied { store: String, action: String },
    /// The template may not evaluate Luau code.
    LuauEvalDenied,
    /// A Luau optimization level other than 0, 1 or 2.
    InvalidOptimizationLevel,
}

/// A refusal in mathematical form.
pub enum CapErrorView {
    Denied(Plugin, Seq<char>),
    DatastoreDenied(Seq<char>, Seq<char>),
    LuauEvalDenied,
    InvalidOptimizationLevel,
}

impl View for CapError {
    type V = CapErrorView;

    open spec fn view(&self) -> CapErrorView {
        match self {
            CapError::Denied { plugin, action } => CapErrorView::Denied(*plugin, action@),
            CapError::DatastoreDenied { store, action } => CapErrorView::DatastoreDenied(store@, action@),
            CapError::LuauEvalDenied => CapErrorView::LuauEvalDenied,
            CapError::InvalidOptimizationLevel => CapErrorView::InvalidOptimizationLevel,
        }
    }
}

/// The message of a refusal.
pub open spec fn cap_error_text(e: CapErrorView) -> Seq<char> {
    match e {
        CapErrorView::Denied(p, a) => match p {
            Plugin::Lockdown => "Lockdown action is not allowed in this template context"@,
            Plugin::Sting => "Sting operation not allowed in this template context"@,
            Plugin::UserInfo => "User info action is not allowed in this template context"@,
            Plugin::ScheduledExec => "User info action is not allowed in this template context"@,
            Plugin::ObjectStorage => "Objectstorage action `"@ + a + "` not allowed in this template context"@,
            Plugin::Page => "Page action is not allowed in this template context"@,
            Plugin::Luau => "Luau action is not allowed in this template context"@,
        },
        CapErrorView::DatastoreDenied(s, a) => "Datastore action is not allowed in this template context: data store: "@
            + s + ", action: "@ + a,
        CapErrorView::LuauEvalDenied => "You don't have permission to evaluate Luau code in this template context"@,
        CapErrorView::InvalidOptimizationLevel => "Invalid optimization level. Must be 0, 1 or 2"@,
    }
}

impl CapError {
    /// The refusal's message.
    pub fn message(&self) -> (r: String)
        ensures
            r@ == cap_error_text(self@),
    {
        match self {
            CapError::Denied { plugin, action } => match plugin {
                Plugin::Lockdown => "Lockdown action is not allowed in this template context".to_string(),
                Plugin::Sting => "Sting operation not allowed in this template context".to_string(),
                Plugin::UserInfo => "User info action is not allowed in this template context".to_string(),
                Plugin::ScheduledExec => "User info action is not allowed in this template context".to_string(),
                Plugin::ObjectStorage => {
                    let mut s = "Objectstorage action `".to_string();
                    append_str(&mut s, action.as_str());
                    append_str(&mut s, "` not allowed in this template context");
                    s
                },
                Plugin::Page => "Page action is not allowed in this template context".to_string(),
                Plugin::Luau => "Luau action is not allowed in this template context".to_string(),
            },
            CapError::DatastoreDenied { store, action } => {
                let mut s = "Datastore action is not allowed in this template context: data store: ".to_string();
                append_str(&mut s, store.as_str());
                append_str(&mut s, ", action: ");
                append_str(&mut s, action.as_str());
                s
            },
            CapError::LuauEvalDenied => "You don't have permission to evaluate Luau code in this template context".to_string(),
            CapError::InvalidOptimizationLevel => "Invalid optimization level. Must be 0, 1 or 2".to_string(),
        }
    }
}

fn prefix_str(p: Plugin) -> (r: &'static str)
    ensures
        r@ == plugin_prefix(p),
{
    match p {
        Plugin::Lockdown => "lockdown",
        Plugin::Sting => "sting",
        Plugin::UserInfo => "userinfo",
        Plugin::ScheduledExec => "scheduledexec",
        Plugin::ObjectStorage => "objectstorage",
        Plugin::Page => "page",
        Plugin::Luau => "luau",
    }
}

/// The capability that allows `action` of plugin `p`.
pub fn capability_name(p: Plugin, action: &str) -> (r: String)
    ensures
        r@ == capability(p, action@),
{
    let mut s = prefix_str(p).to_string();
    append_str(&mut s, ":");
    append_str(&mut s, action);
    s
}

/// Checks that the template may perform `action` of plugin `p`, its capabilities decided by
/// `has_cap`. (Rate limits are the provider's, and come after.)
pub fn check_action<F: Fn(&str) -> bool>(p: Plugin, action: &str, has_cap: &F) -> (r: Result<(), CapError>)
    requires
        callable(*has_cap),
    ensures
        forall|h: spec_fn(Seq<char>) -> bool| decides(*has_cap, h) ==> if allowed(p, action@, h) {
            r is Ok
        } else {
            r matches Err(e) && e@ == CapErrorView::Denied(p, action@)
        },
{
    let cap = capability_name(p, action);
    if has_cap(cap.as_str()) {
        return Ok(());
    }
    if p == Plugin::Luau && has_cap("luau:*") {
        return Ok(());
    }
    Err(CapError::Denied { plugin: p, action: action.to_string() })
}

/// Whether a data store action is allowed: when the store asks for capabilities, the template
/// needs the store's own capability or the one of the action on the store.
pub open spec fn datastore_allowed(store: Seq<char>, action: Seq<char>, needs_caps: bool, has: spec_fn(Seq<char>) -> bool) -> bool {
    !needs_caps || has("datastore:"@ + store) || has("datastore:"@ + store + ":"@ + action)
}

/// Checks a data store action; `needs_caps` is the store's own answer to whether the action
/// asks for capabilities.
pub fn check_datastore_action<F: Fn(&str) -> bool>(store: &str, action: &str, needs_caps: bool, has_cap: &F) -> (r: Result<(), CapError>)
    requires
        callable(*has_cap),
    ensures
        forall|h: spec_fn(Seq<char>) -> bool| decides(*has_cap, h) ==> if datastore_allowed(store@, action@, needs_caps, h) {
            r is Ok
        } else {
            r matches Err(e) && e@ == CapErrorView::DatastoreDenied(store@, action@)
        },
{
    if !needs_caps {
        return Ok(());
    }
    let mut whole = "datastore:".to_string();
    append_str(&mut whole, store);
    if has_cap(whole.as_str()) {
        return Ok(());
    }
    let mut one = whole;
    append_str(&mut one, ":");
    append_str(&mut one, action);
    if has_cap(one.as_str()) {
        return Ok(());
    }
    Err(CapError::DatastoreDenied { store: store.to_string(), action: action.to_string() })
}

/// A piece of Luau code waiting to run, with how it runs: its name, its environment (the
/// globals when unset) and the compiler's optimization level (the default when unset).
#[derive(Debug, Clone)]
pub struct Chunk<E> {
    pub code: String,
    pub chunk_name: Option<String>,
    pub environment: Option<E>,
    pub optimization_level: Option<u8>,
}

/// Whether the template may evaluate Luau code.
pub open spec fn may_eval(has: spec_fn(Seq<char>) -> bool) -> bool {
    has("luau:eval"@) || has(luau_all())
}

impl<E> Chunk<E> {
    /// Loads `code` as a chunk; refused unless the template may evaluate Luau code.
    pub fn load<F: Fn(&str) -> bool>(code: String, has_cap: &F) -> (r: Result<Chunk<E>, CapError>)
        requires
            callable(*has_cap),
        ensures
            forall|h: spec_fn(Seq<char>) -> bool| decides(*has_cap, h) ==> if may_eval(h) {
                r matches Ok(c) && c.code@ == code@ && c.chunk_name is None && c.environment is None && c.optimization_level is None
            } else {
                r matches Err(e) && e@ == CapErrorView::LuauEvalDenied
            },
    {
        if !has_cap("luau:eval") && !has_cap("luau:*") {
            return Err(CapError::LuauEvalDenied);
        }
        Ok(Chunk { code, chunk_name: None, environment: None, optimization_level: None })
    }

    /// Sets the environment (action `eval.set_environment`).
    pub fn set_environment<F: Fn(&str) -> bool>(&mut self, env: E, has_cap: &F) -> (r: Result<(), CapError>)
        requires
            callable(*has_cap),
        ensures
            forall|h: spec_fn(Seq<char>) -> bool| decides(*has_cap, h) ==> if allowed(Plugin::Luau, "eval.set_environment"@, h) {
                r is Ok && final(self).environment == Some(env) && final(self).code == old(self).code
                    && final(self).chunk_name == old(self).chunk_name && final(self).optimization_level == old(self).optimization_level
            } else {
                r matches Err(e) && e@ == CapErrorView::Denied(Plugin::Luau, "eval.set_environment"@) && *final(self) == *old(self)
            },
    {
        check_action(Plugin::Luau, "eval.set_environment", has_cap)?;
        self.environment = Some(env);
        Ok(())
    }

    /// Sets the optimization level (action `eval.set_optimization_level`); only 0, 1 and 2 are
    /// levels.
    pub fn set_optimization_level<F: Fn(&str) -> bool>(&mut self, level: u8, has_cap: &F) -> (r: Result<(), CapError>)
        requires
            callable(*has_cap),
        ensures
            forall|h: spec_fn(Seq<char>) -> bool| decides(*has_cap, h) ==> if !allowed(Plugin::Luau, "eval.set_optimization_level"@, h) {
                r matches Err(e) && e@ == CapErrorView::Denied(Plugin::Luau, "eval.set_optimization_level"@) && *final(self) == *old(self)
            } else if level > 2 {
                r matches Err(e) && e@ == CapErrorView::InvalidOptimizationLevel && *final(self) == *old(self)
            } else {
                r is Ok && *final(self) == (Chunk { optimization_level: Some(level), ..*old(self) })
            },
    {
        check_action(Plugin::Luau, "eval.set_optimization_level", has_cap)?;
        if level > 2 {
            return Err(CapError::InvalidOptimizationLevel);
        }
        self.optimization_level = Some(level);
        Ok(())
    }

    /// Replaces the code (action `eval.modify_set_code`).
    pub fn set_code<F: Fn(&str) -> bool>(&mut self, code: String, has_cap: &F) -> (r: Result<(), CapError>)
        requires
            callable(*has_cap),
        ensures
            forall|h: spec_fn(Seq<char>) -> bool| decides(*has_cap, h) ==> if allowed(Plugin::Luau, "eval.modify_set_code"@, h) {
                r is Ok && final(self).code == code && final(self).environment == old(self).environment
                    && final(self).chunk_name == old(self).chunk_name && final(self).optimization_level == old(self).optimization_level
            } else {
                r matches Err(e) && e@ == CapErrorView::Denied(Plugin::Luau, "eval.modify_set_code"@) && *final(self) == *old(self)
            },
    {
        check_action(Plugin::Luau, "eval.modify_set_code", has_cap)?;
        self.code = code;
        Ok(())
    }

    /// Sets or clears the chunk's name (action `eval.set_chunk_name`).
    pub fn set_chunk_name<F: Fn(&str) -> bool>(&mut self, name: Option<String>, has_cap: &F) -> (r: Result<(), CapError>)
        requires
            callable(*has_cap),
        ensures
            forall|h: spec_fn(Seq<char>) -> bool| decides(*has_cap, h) ==> if allowed(Plugin::Luau, "eval.set_chunk_name"@, h) {
                r is Ok && final(self).chunk_name == name && final(self).environment == old(self).environment
                    && final(self).code == old(self).code && final(self).optimization_level == old(self).optimization_level
            } else {
                r matches Err(e) && e@ == CapErrorView::Denied(Plugin::Luau, "eval.set_chunk_name"@) && *final(self) == *old(self)
            },
    {
        check_action(Plugin::Luau, "eval.set_chunk_name", has_cap)?;
        self.chunk_name = name;
        Ok(())
    }
}

/// The text `values` are shown as: their debug texts joined by tabs, or `nil` for none.
pub open spec fn format_values_spec(texts: Seq<Seq<char>>) -> Seq<char>
    decreases texts.len(),
{
    if texts.len() == 0 {
        "nil"@
    } else if texts.len() == 1 {
        texts[0]
    } else {
        format_values_spec(texts.drop_last()) + "\t"@ + texts.last()
    }
}

/// Shows values by their debug texts, joined by tabs, or `nil` for none.
pub fn format_values(texts: &Vec<String>) -> (r: String)
    ensures
        r@ == format_values_spec(texts@.map_values(|s: String| s@)),
{
    let ghost views = texts@.map_values(|s: String| s@);
    if texts.len() == 0 {
        return "nil".to_string();
    }
    let mut out = texts[0].clone();
    let mut i: usize = 1;
    assert(views.take(1).drop_last().len() == 0);
    while i < texts.len()
        invariant
            1 <= i <= texts.len(),
            views == texts@.map_values(|s: String| s@),
            out@ == format_values_spec(views.take(i as int)),
        decreases texts.len() - i,
    {
        append_str(&mut out, "\t");
        append_str(&mut out, texts[i].as_str());
        assert(views.take(i + 1).drop_last() =~= views.take(i as int));
        i = i + 1;
    }
    assert(views.take(texts.len() as int) =~= views);
    out
}

} // verus!
