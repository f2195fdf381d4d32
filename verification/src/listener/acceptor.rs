//! The TLS acceptor's state machine.
//!
//! One acceptor races two events forever: a new configuration arriving on the
//! feed, and a raw connection arriving on the inner listener.  The state is
//! nothing but the engine configuration currently active, if any.  Handling
//! either event is a plain decision, verified here; the surrounding race and
//! the handshake itself are driven by the asynchronous shell around the
//! library.

use vstd::prelude::*;

use crate::listener::rustls::{
    ConfigError, EngineConfig, RustlsConfig, SpecConfig, config_compiles, config_error,
};

verus! {

/// A listener that terminates TLS over an inner listener, reading new
/// configurations from a live feed.  Activating it pairs the inner
/// listener's acceptor with a fresh [`RustlsAcceptor`] state machine.
pub struct RustlsListener<T, S> {
    inner: T,
    config_stream: S,
}

impl<T, S> RustlsListener<T, S> {
    /// The wrapped inner listener.
    pub closed spec fn spec_inner(self) -> T {
        self.inner
    }

    /// The configuration feed.
    pub closed spec fn spec_config_stream(self) -> S {
        self.config_stream
    }

    /// Wrap an inner listener with a TLS configuration feed.
    pub fn new(inner: T, config_stream: S) -> (r: Self)
        ensures
            r.spec_inner() == inner,
            r.spec_config_stream() == config_stream,
    {
        RustlsListener { inner, config_stream }
    }

    /// Take the listener apart, consuming it: activation is one-shot.
    pub fn into_parts(self) -> (r: (T, S))
        ensures
            r.0 == self.spec_inner(),
            r.1 == self.spec_config_stream(),
    {
        (self.inner, self.config_stream)
    }
}

/// What handling one configuration event reports.
#[derive(Clone, Copy, Debug, PartialEq, Eq, Structural)]
pub enum ConfigOutcome {
    /// The first configuration compiled and is now active.
    Loaded,
    /// A newer configuration compiled and replaced the active one.
    Changed,
    /// The configuration did not compile; the previous one, if any, stays
    /// active.
    Rejected(ConfigError),
}

/// Why an accept attempt failed in this layer.
#[derive(Clone, Copy, Debug, PartialEq, Eq, Structural)]
pub enum AcceptError {
    /// No configuration has compiled yet; this accept attempt fails, later
    /// ones succeed once a configuration loads.
    NoValidTlsConfig,
}

impl AcceptError {
    /// A short description, in the shape of an I/O error message.
    pub fn message(&self) -> &'static str {
        match self {
            AcceptError::NoValidTlsConfig => "no valid tls config.",
        }
    }
}

/// What one configuration event leaves active: a configuration that compiles
/// replaces the current one; one that does not leaves it as it was.
pub open spec fn spec_config_step(cur: Option<SpecConfig>, c: SpecConfig) -> Option<SpecConfig> {
    if config_compiles(c) {
        Some(c)
    } else {
        cur
    }
}

/// What a whole feed leaves active, handled front to back.
pub open spec fn spec_config_fold(init: Option<SpecConfig>, feed: Seq<SpecConfig>) -> Option<
    SpecConfig,
>
    decreases feed.len(),
{
    if feed.len() == 0 {
        init
    } else {
        spec_config_fold(spec_config_step(init, feed[0]), feed.drop_first())
    }
}

/// Whether some item of the feed compiles.
pub open spec fn has_success(feed: Seq<SpecConfig>) -> bool {
    exists|i: int| 0 <= i < feed.len() && config_compiles(#[trigger] feed[i])
}

/// The greatest index of a compiling item.
pub open spec fn last_success(feed: Seq<SpecConfig>) -> int
    decreases feed.len(),
{
    if feed.len() == 0 {
        -1
    } else if config_compiles(feed.last()) {
        feed.len() - 1
    } else {
        last_success(feed.drop_last())
    }
}

proof fn lemma_fold_push(init: Option<SpecConfig>, s: Seq<SpecConfig>, c: SpecConfig)
    ensures
        spec_config_fold(init, s.push(c)) == spec_config_step(spec_config_fold(init, s), c),
    decreases s.len(),
{
    if s.len() == 0 {
        assert(s.push(c)[0] == c);
        assert(s.push(c).drop_first() =~= Seq::<SpecConfig>::empty());
        assert(spec_config_fold(init, s.push(c)) == spec_config_fold(
            spec_config_step(init, c),
            Seq::<SpecConfig>::empty(),
        ));
        assert(spec_config_fold(spec_config_step(init, c), Seq::<SpecConfig>::empty())
            == spec_config_step(init, c));
        assert(spec_config_fold(init, s) == init);
    } else {
        assert(s.push(c)[0] == s[0]);
        assert(s.push(c).drop_first() =~= s.drop_first().push(c));
        assert(spec_config_fold(init, s.push(c)) == spec_config_fold(
            spec_config_step(init, s[0]),
            s.drop_first().push(c),
        ));
        lemma_fold_push(spec_config_step(init, s[0]), s.drop_first(), c);
    }
}

proof fn lemma_last_success_in_range(feed: Seq<SpecConfig>)
    requires
        has_success(feed),
    ensures
        0 <= last_success(feed) < feed.len(),
        config_compiles(feed[last_success(feed)]),
    decreases feed.len(),
{
    if !config_compiles(feed.last()) {
        let prefix = feed.drop_last();
        assert(has_success(prefix)) by {
            let i = choose|i: int| 0 <= i < feed.len() && config_compiles(#[trigger] feed[i]);
            assert(i < prefix.len() && config_compiles(prefix[i]));
        }
        lemma_last_success_in_range(prefix);
    }
}

/// Law: configuration application is all-or-nothing per item.  A feed item
/// that fails to compile leaves the acceptor serving exactly what it served
/// before that item.
pub proof fn lemma_rejected_item_changes_nothing(
    init: Option<SpecConfig>,
    feed: Seq<SpecConfig>,
    k: int,
)
    requires
        0 <= k < feed.len(),
        !config_compiles(feed[k]),
    ensures
        spec_config_fold(init, feed.take(k + 1)) == spec_config_fold(init, feed.take(k)),
{
    assert(feed.take(k + 1) =~= feed.take(k).push(feed[k]));
    lemma_fold_push(init, feed.take(k), feed[k]);
}

/// Law: after a whole feed, the acceptor serves exactly the configuration of
/// the last item that compiled, and what it started with when none did.
pub proof fn lemma_feed_serves_last_success(init: Option<SpecConfig>, feed: Seq<SpecConfig>)
    ensures
        !has_success(feed) ==> spec_config_fold(init, feed) == init,
        has_success(feed) ==> spec_config_fold(init, feed) == Some(feed[last_success(feed)]),
    decreases feed.len(),
{
    if feed.len() == 0 {
    } else {
        let prefix = feed.drop_last();
        assert(feed =~= prefix.push(feed.last()));
        lemma_fold_push(init, prefix, feed.last());
        lemma_feed_serves_last_success(init, prefix);
        if config_compiles(feed.last()) {
            assert(has_success(feed));
        } else {
            assert(has_success(feed) ==> has_success(prefix)) by {
                if has_success(feed) {
                    let i = choose|i: int|
                        0 <= i < feed.len() && config_compiles(#[trigger] feed[i]);
                    assert(i < prefix.len() && config_compiles(prefix[i]));
                }
            }
            assert(has_success(prefix) ==> has_success(feed)) by {
                if has_success(prefix) {
                    let i = choose|i: int|
                        0 <= i < prefix.len() && config_compiles(#[trigger] prefix[i]);
                    assert(config_compiles(feed[i]));
                }
            }
            if has_success(feed) {
                lemma_last_success_in_range(prefix);
                assert(feed[last_success(feed)] == prefix[last_success(prefix)]);
            }
        }
    }
}

/// A TLS protocol acceptor: the state the reconfigure/accept race keeps.
///
/// The state machine has two states only — unconfigured, and configured with
/// an immutable engine configuration.  There is no terminal state: the race
/// re-enters after every handled event.
pub struct RustlsAcceptor {
    current_tls_acceptor: Option<EngineConfig>,
}

impl RustlsAcceptor {
    /// The active engine configuration, when present, is well formed.
    #[verifier::type_invariant]
    spec fn type_inv(self) -> bool {
        self.wf()
    }

    /// The active engine configuration, if any.
    pub closed spec fn spec_engine(self) -> Option<EngineConfig> {
        self.current_tls_acceptor
    }

    /// The source of the active engine configuration, if any.
    pub open spec fn spec_active(self) -> Option<SpecConfig> {
        match self.spec_engine() {
            Some(ec) => Some(ec.source()),
            None => None,
        }
    }

    /// The active engine configuration, when present, is well formed.
    pub open spec fn wf(self) -> bool {
        self.spec_engine() matches Some(ec) ==> ec.wf()
    }

    /// A fresh acceptor: unconfigured, so that every accept fails until a
    /// configuration compiles.
    pub fn new() -> (r: Self)
        ensures
            r.spec_active() is None,
            r.wf(),
    {
        RustlsAcceptor { current_tls_acceptor: None }
    }

    /// Handle one configuration event: compile the configuration and, on
    /// success, atomically replace the active engine configuration.
    /// Connections already handed out keep the engine they were accepted
    /// with.  On failure the previous configuration — or the unconfigured
    /// state — is kept: a bad reconfiguration never tears down a working
    /// listener.
    pub fn on_config(&mut self, config: &RustlsConfig) -> (r: ConfigOutcome)
        ensures
            final(self).wf(),
            final(self).spec_active() == spec_config_step(old(self).spec_active(), config@),
            config_compiles(config@) ==> (final(self).spec_engine() matches Some(ec) && ec.wf()
                && ec.source() == config@),
            !config_compiles(config@) ==> final(self).spec_engine() == old(self).spec_engine(),
            r is Loaded <==> (config_compiles(config@) && old(self).spec_active() is None),
            r is Changed <==> (config_compiles(config@) && old(self).spec_active() is Some),
            r matches ConfigOutcome::Rejected(e) ==> e == config_error(config@),
            r is Rejected <==> !config_compiles(config@),
    {
        proof {
            use_type_invariant(&*self);
        }
        match config.create_server_config() {
            Ok(engine) => {
                let had_one = self.current_tls_acceptor.is_some();
                self.current_tls_acceptor = Some(engine);
                if had_one {
                    ConfigOutcome::Changed
                } else {
                    ConfigOutcome::Loaded
                }
            },
            Err(e) => ConfigOutcome::Rejected(e),
        }
    }

    /// Handle one accept event: hand out the engine configuration the new
    /// connection's handshake must use.  Before any configuration has
    /// loaded, that single accept attempt fails; the acceptor itself keeps
    /// serving.
    pub fn engine_for_accept(&self) -> (r: Result<&EngineConfig, AcceptError>)
        ensures
            r is Ok <==> self.spec_active() is Some,
            r matches Ok(ec) ==> (Some(*ec) == self.spec_engine() && ec.wf()),
            r is Err <==> self.spec_active() is None,
    {
        proof {
            use_type_invariant(self);
        }
        match &self.current_tls_acceptor {
            Some(engine) => Ok(engine),
            None => Err(AcceptError::NoValidTlsConfig),
        }
    }
}

} // verus!
