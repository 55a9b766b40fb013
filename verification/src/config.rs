//! The client's configuration.

use vstd::prelude::*;

verus! {

/// The backlog depth of the bus unless another is set.
pub const DEFAULT_CHANNEL_SIZE: usize = 16;

/// Whether a bus can be made with this backlog depth.
pub open spec fn is_channel_size(size: usize) -> bool {
    0 < size <= usize::MAX / 2
}

/// What a [`ClientConfig`] holds, as mathematical values.
pub struct ClientConfigView {
    pub channel_size: usize,
    pub metrics_prefix: Seq<char>,
}

/// Miscellaneous settings of a client. The backlog depth is always one
/// that a bus can be made with.
#[derive(Debug, PartialEq, Eq)]
pub struct ClientConfig {
    channel_size: usize,
    metrics_prefix: String,
}

impl View for ClientConfig {
    type V = ClientConfigView;

    closed spec fn view(&self) -> ClientConfigView {
        ClientConfigView { channel_size: self.channel_size, metrics_prefix: self.metrics_prefix@ }
    }
}

impl ClientConfig {
    #[verifier::type_invariant]
    spec fn well_formed(&self) -> bool {
        is_channel_size(self.channel_size)
    }

    /// The settings of a client for which none was chosen.
    pub open spec fn default_view() -> ClientConfigView {
        ClientConfigView { channel_size: DEFAULT_CHANNEL_SIZE, metrics_prefix: "mqtt"@ }
    }

    /// How many events the bus keeps for a receiver that falls behind.
    pub fn channel_size(&self) -> (size: usize)
        ensures
            size == self@.channel_size,
            is_channel_size(size),
    {
        proof {
            use_type_invariant(self);
        }
        self.channel_size
    }

    /// The prefix under which the metrics are registered.
    pub fn metrics_prefix(&self) -> (prefix: &String)
        ensures
            prefix@ == self@.metrics_prefix,
    {
        &self.metrics_prefix
    }
}

impl Default for ClientConfig {
    fn default() -> (config: ClientConfig)
        ensures
            config@ == ClientConfig::default_view(),
    {
        ClientConfig { channel_size: DEFAULT_CHANNEL_SIZE, metrics_prefix: "mqtt".to_owned() }
    }
}

impl Clone for ClientConfig {
    fn clone(&self) -> (config: ClientConfig)
        ensures
            config@ == self@,
    {
        proof {
            use_type_invariant(self);
        }
        ClientConfig {
            channel_size: self.channel_size,
            metrics_prefix: self.metrics_prefix.clone(),
        }
    }
}

/// Why a [`ClientConfigBuilder`] could not produce its value.
#[derive(Debug, PartialEq, Eq)]
pub enum ClientConfigBuilderError {
    /// A field without a default was never set; the name is the field's.
    UninitializedField(&'static str),
    /// The fields do not make a valid value; the text says why.
    ValidationError(String),
}

/// What a [`ClientConfigBuilderError`] holds, as mathematical values.
pub enum ClientConfigBuilderErrorView {
    UninitializedField(Seq<char>),
    ValidationError(Seq<char>),
}

impl View for ClientConfigBuilderError {
    type V = ClientConfigBuilderErrorView;

    open spec fn view(&self) -> ClientConfigBuilderErrorView {
        match *self {
            ClientConfigBuilderError::UninitializedField(field) => {
                ClientConfigBuilderErrorView::UninitializedField(field@)
            },
            ClientConfigBuilderError::ValidationError(reason) => {
                ClientConfigBuilderErrorView::ValidationError(reason@)
            },
        }
    }
}

/// Collects the settings of a [`ClientConfig`] one by one; what is never
/// set keeps its default.
#[derive(Debug)]
pub struct ClientConfigBuilder {
    channel_size: Option<usize>,
    metrics_prefix: Option<String>,
}

/// What a [`ClientConfigBuilder`] holds, as mathematical values.
pub struct ClientConfigBuilderView {
    pub channel_size: Option<usize>,
    pub metrics_prefix: Option<Seq<char>>,
}

impl View for ClientConfigBuilder {
    type V = ClientConfigBuilderView;

    closed spec fn view(&self) -> ClientConfigBuilderView {
        ClientConfigBuilderView {
            channel_size: self.channel_size,
            metrics_prefix: match self.metrics_prefix {
                Some(p) => Some(p@),
                None => None,
            },
        }
    }
}

impl Default for ClientConfigBuilder {
    fn default() -> (b: ClientConfigBuilder)
        ensures
            b@ == (ClientConfigBuilderView { channel_size: None, metrics_prefix: None }),
    {
        ClientConfigBuilder { channel_size: None, metrics_prefix: None }
    }
}

impl ClientConfigBuilder {
    /// Sets the backlog depth of the bus.
    pub fn channel_size(&mut self, value: usize) -> (r: &mut Self)
        ensures
            r@ == (ClientConfigBuilderView {
                channel_size: Some(value),
                metrics_prefix: old(self)@.metrics_prefix,
            }),
            *final(self) == *final(r),
    {
        self.channel_size = Some(value);
        self
    }

    /// Sets the prefix under which the metrics are registered.
    pub fn metrics_prefix(&mut self, value: String) -> (r: &mut Self)
        ensures
            r@ == (ClientConfigBuilderView {
                channel_size: old(self)@.channel_size,
                metrics_prefix: Some(value@),
            }),
            *final(self) == *final(r),
    {
        self.metrics_prefix = Some(value);
        self
    }

    /// What `build` returns for a builder that holds `view`.
    pub open spec fn build_spec(view: ClientConfigBuilderView) -> Result<
        ClientConfigView,
        ClientConfigBuilderErrorView,
    > {
        let channel_size = match view.channel_size {
            Some(size) => size,
            None => DEFAULT_CHANNEL_SIZE,
        };
        let metrics_prefix = match view.metrics_prefix {
            Some(prefix) => prefix,
            None => "mqtt"@,
        };
        if is_channel_size(channel_size) {
            Ok(ClientConfigView { channel_size, metrics_prefix })
        } else {
            Err(
                ClientConfigBuilderErrorView::ValidationError(
                    "channel_size must be between 1 and half the largest size"@,
                ),
            )
        }
    }

    /// Builds the configuration. Fails only on a backlog depth that no bus
    /// can have: zero, or more than half of `usize::MAX`.
    pub fn build(&self) -> (r: Result<ClientConfig, ClientConfigBuilderError>)
        ensures
            match Self::build_spec(self@) {
                Ok(view) => r matches Ok(config) && config@ == view,
                Err(view) => r matches Err(e) && e@ == view,
            },
    {
        let channel_size: usize = match self.channel_size {
            Some(size) => size,
            None => DEFAULT_CHANNEL_SIZE,
        };
        let metrics_prefix = match &self.metrics_prefix {
            Some(prefix) => prefix.clone(),
            None => "mqtt".to_owned(),
        };
        if 0 < channel_size && channel_size <= usize::MAX / 2 {
            Ok(ClientConfig { channel_size, metrics_prefix })
        } else {
            Err(
                ClientConfigBuilderError::ValidationError(
                    "channel_size must be between 1 and half the largest size".to_owned(),
                ),
            )
        }
    }
}

} // verus!
