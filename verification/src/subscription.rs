//! Subscriptions: a topic filter and the delivery assurance asked for it.

use vstd::prelude::*;

verus! {

/// What a [`Subscription`] holds, as mathematical values.
pub struct SubscriptionView {
    pub topic: Seq<char>,
    pub qos: i32,
}

/// Whether `qos` is one of the three delivery-assurance levels.
pub open spec fn is_qos(qos: i32) -> bool {
    0 <= qos <= 2
}

/// A request to receive the messages of the topics that match a filter.
/// Its topic is never empty and its level is 0, 1 or 2.
#[derive(Debug, PartialEq, Eq)]
pub struct Subscription {
    topic: String,
    qos: i32,
}

impl View for Subscription {
    type V = SubscriptionView;

    closed spec fn view(&self) -> SubscriptionView {
        SubscriptionView { topic: self.topic@, qos: self.qos }
    }
}

impl Subscription {
    #[verifier::type_invariant]
    spec fn well_formed(&self) -> bool {
        self.topic@.len() > 0 && is_qos(self.qos)
    }

    /// The topic filter.
    pub fn topic(&self) -> (t: &String)
        ensures
            t@ == self@.topic,
            t@.len() > 0,
    {
        proof {
            use_type_invariant(self);
        }
        &self.topic
    }

    /// The delivery-assurance level: 0, 1 or 2.
    pub fn qos(&self) -> (q: i32)
        ensures
            q == self@.qos,
            is_qos(q),
    {
        proof {
            use_type_invariant(self);
        }
        self.qos
    }
}

impl Clone for Subscription {
    fn clone(&self) -> (s: Subscription)
        ensures
            s@ == self@,
    {
        proof {
            use_type_invariant(self);
        }
        Subscription { topic: self.topic.clone(), qos: self.qos }
    }
}

/// Why a builder could not produce its value.
#[derive(Debug, PartialEq, Eq)]
pub enum SubscriptionBuilderError {
    /// A field without a default was never set; the name is the field's.
    UninitializedField(&'static str),
    /// The fields do not make a valid value; the text says why.
    ValidationError(String),
}

/// What a [`SubscriptionBuilderError`] holds, as mathematical values.
pub enum SubscriptionBuilderErrorView {
    UninitializedField(Seq<char>),
    ValidationError(Seq<char>),
}

impl View for SubscriptionBuilderError {
    type V = SubscriptionBuilderErrorView;

    open spec fn view(&self) -> SubscriptionBuilderErrorView {
        match *self {
            SubscriptionBuilderError::UninitializedField(field) => {
                SubscriptionBuilderErrorView::UninitializedField(field@)
            },
            SubscriptionBuilderError::ValidationError(reason) => {
                SubscriptionBuilderErrorView::ValidationError(reason@)
            },
        }
    }
}

/// Collects the fields of a [`Subscription`] one by one.
#[derive(Debug)]
pub struct SubscriptionBuilder {
    topic: Option<String>,
    qos: Option<i32>,
}

/// What a [`SubscriptionBuilder`] holds, as mathematical values.
pub struct SubscriptionBuilderView {
    pub topic: Option<Seq<char>>,
    pub qos: Option<i32>,
}

impl View for SubscriptionBuilder {
    type V = SubscriptionBuilderView;

    closed spec fn view(&self) -> SubscriptionBuilderView {
        SubscriptionBuilderView {
            topic: match self.topic {
                Some(t) => Some(t@),
                None => None,
            },
            qos: self.qos,
        }
    }
}

impl Default for SubscriptionBuilder {
    fn default() -> (b: SubscriptionBuilder)
        ensures
            b@ == (SubscriptionBuilderView { topic: None, qos: None }),
    {
        SubscriptionBuilder { topic: None, qos: None }
    }
}

impl SubscriptionBuilder {
    /// The level that a built subscription gets: the one set last, else 0.
    pub open spec fn qos_or_default(view: SubscriptionBuilderView) -> i32 {
        match view.qos {
            Some(q) => q,
            None => 0,
        }
    }

    /// Sets the topic filter.
    pub fn topic(&mut self, value: String) -> (r: &mut Self)
        ensures
            r@ == (SubscriptionBuilderView { topic: Some(value@), qos: old(self)@.qos }),
            *final(self) == *final(r),
    {
        self.topic = Some(value);
        self
    }

    /// Sets the delivery-assurance level.
    pub fn qos(&mut self, value: i32) -> (r: &mut Self)
        ensures
            r@ == (SubscriptionBuilderView { topic: old(self)@.topic, qos: Some(value) }),
            *final(self) == *final(r),
    {
        self.qos = Some(value);
        self
    }

    /// Sets the level to 0: at most once.
    pub fn qos_at_most_once(&mut self) -> (r: &mut Self)
        ensures
            r@ == (SubscriptionBuilderView { topic: old(self)@.topic, qos: Some(0i32) }),
            *final(self) == *final(r),
    {
        self.qos(0)
    }

    /// Sets the level to 1: at least once.
    pub fn qos_at_least_once(&mut self) -> (r: &mut Self)
        ensures
            r@ == (SubscriptionBuilderView { topic: old(self)@.topic, qos: Some(1i32) }),
            *final(self) == *final(r),
    {
        self.qos(1)
    }

    /// Sets the level to 2: exactly once.
    pub fn qos_exactly_once(&mut self) -> (r: &mut Self)
        ensures
            r@ == (SubscriptionBuilderView { topic: old(self)@.topic, qos: Some(2i32) }),
            *final(self) == *final(r),
    {
        self.qos(2)
    }

    /// What `build` returns for a builder that holds `view`: the error, or
    /// the subscription's contents.
    pub open spec fn build_spec(view: SubscriptionBuilderView) -> Result<
        SubscriptionView,
        SubscriptionBuilderErrorView,
    > {
        match view.topic {
            None => Err(SubscriptionBuilderErrorView::UninitializedField("topic"@)),
            Some(topic) => {
                let qos = Self::qos_or_default(view);
                if topic.len() == 0 {
                    Err(SubscriptionBuilderErrorView::ValidationError("topic must not be empty"@))
                } else if !is_qos(qos) {
                    Err(SubscriptionBuilderErrorView::ValidationError("qos must be 0, 1 or 2"@))
                } else {
                    Ok(SubscriptionView { topic, qos })
                }
            },
        }
    }

    /// Builds the subscription from the fields set so far. The topic has no
    /// default; the level defaults to 0.
    pub fn build(&self) -> (r: Result<Subscription, SubscriptionBuilderError>)
        ensures
            match Self::build_spec(self@) {
                Ok(view) => r matches Ok(s) && s@ == view,
                Err(view) => r matches Err(e) && e@ == view,
            },
    {
        match &self.topic {
            None => Err(SubscriptionBuilderError::UninitializedField("topic")),
            Some(topic) => {
                let qos: i32 = match self.qos {
                    Some(q) => q,
                    None => 0,
                };
                if topic.as_str().is_empty() {
                    Err(
                        SubscriptionBuilderError::ValidationError(
                            "topic must not be empty".to_owned(),
                        ),
                    )
                } else if qos < 0 || qos > 2 {
                    Err(
                        SubscriptionBuilderError::ValidationError(
                            "qos must be 0, 1 or 2".to_owned(),
                        ),
                    )
                } else {
                    Ok(Subscription { topic: topic.clone(), qos })
                }
            },
        }
    }
}

} // verus!
