//! A check-in: how a user felt at one moment.

use crate::utils::date::{now, Date};
use crate::utils::models::{index_views, IndexModel, IndexView, ModelExt};
use crate::utils::oid::ObjectId;
use crate::utils::text::str_eq;
use vstd::prelude::*;

verus! {

pub const EMOTION_JOY: &'static str = "joy";

pub const EMOTION_SADNESS: &'static str = "sadness";

pub const EMOTION_ANGER: &'static str = "anger";

pub const EMOTION_FEAR: &'static str = "fear";

pub const EMOTION_DISGUST: &'static str = "disgust";

pub const EMOTION_SURPRISE: &'static str = "surprise";

/// Lowest rating a check-in can carry.
pub const RATING_MIN: u8 = 1;

/// Highest rating a check-in can carry.
pub const RATING_MAX: u8 = 5;

/// The labels a primary emotion is chosen from, in the order they are listed.
pub open spec fn emotion_labels() -> Seq<Seq<char>> {
    seq!["joy"@, "sadness"@, "anger"@, "fear"@, "disgust"@, "surprise"@]
}

/// Whether `label` names one of the primary emotions.
pub open spec fn is_emotion(label: Seq<char>) -> bool {
    emotion_labels().contains(label)
}

/// Whether `rating` lies on the scale from one to five.
pub open spec fn is_rating(rating: u8) -> bool {
    RATING_MIN <= rating <= RATING_MAX
}

/// The labels of the primary emotions.
pub fn valid_emotions() -> (labels: Vec<&'static str>)
    ensures
        labels@.len() == emotion_labels().len(),
        forall|i: int| 0 <= i < labels@.len() ==> (#[trigger] labels@[i])@ == emotion_labels()[i],
{
    vec![
        EMOTION_JOY,
        EMOTION_SADNESS,
        EMOTION_ANGER,
        EMOTION_FEAR,
        EMOTION_DISGUST,
        EMOTION_SURPRISE,
    ]
}

/// Tells whether `label` names one of the primary emotions.
pub fn is_valid_emotion(label: &str) -> (valid: bool)
    ensures
        valid == is_emotion(label@),
{
    let labels = valid_emotions();
    let mut i: usize = 0;
    while i < labels.len()
        invariant
            i <= labels@.len(),
            labels@.len() == emotion_labels().len(),
            forall|j: int|
                0 <= j < labels@.len() ==> (#[trigger] labels@[j])@ == emotion_labels()[j],
            forall|j: int| 0 <= j < i ==> emotion_labels()[j] != label@,
        decreases labels@.len() - i,
    {
        if str_eq(labels[i], label) {
            assert(emotion_labels()[i as int] == label@);
            return true;
        }
        i += 1;
    }
    false
}

/// Tells whether `rating` lies on the scale from one to five.
pub fn is_valid_rating(rating: u8) -> (valid: bool)
    ensures
        valid == is_rating(rating),
{
    RATING_MIN <= rating && rating <= RATING_MAX
}

/// A check-in as it is stored.
#[derive(Debug, Clone, PartialEq, Eq)]
pub struct Checkin {
    pub id: Option<ObjectId>,
    pub user: ObjectId,
    pub mood_rating: u8,
    pub primary_emotion: String,
    pub intensity: u8,
    pub energy_level: u8,
    pub stress_level: u8,
    pub wellbeing: u8,
    pub notes: Option<String>,
    pub updated_at: Date,
    pub created_at: Date,
}

/// A stretch of time: from `start` on and before `end`.
#[derive(Debug, Clone, Copy, PartialEq, Eq, Structural)]
pub struct DateWindow {
    pub start: Date,
    pub end: Date,
}

/// A search for the check-ins of one user, all of them or those created
/// within a stretch of time.
#[derive(Debug, Clone, Copy, PartialEq, Eq)]
pub struct CheckinFilter {
    pub user: ObjectId,
    pub window: Option<DateWindow>,
}

impl DateWindow {
    /// Whether the stretch begins before it ends.
    pub open spec fn ordered(self) -> bool {
        self.start@ < self.end@
    }

    /// Whether the instant `at` lies in the stretch.
    pub open spec fn holds(self, at: Date) -> bool {
        self.start@ <= at@ < self.end@
    }

    /// Tells whether the instant `at` lies in the stretch.
    pub fn contains(&self, at: Date) -> (inside: bool)
        ensures
            inside == self.holds(at),
    {
        self.start.timestamp_millis() <= at.timestamp_millis() && at.timestamp_millis()
            < self.end.timestamp_millis()
    }
}

/// A check-in as a client sees it.
#[derive(Debug, Clone, PartialEq, Eq)]
pub struct PublicCheckin {
    pub id: ObjectId,
    pub user: ObjectId,
    pub mood_rating: u8,
    pub primary_emotion: String,
    pub intensity: u8,
    pub energy_level: u8,
    pub stress_level: u8,
    pub wellbeing: u8,
    pub notes: Option<String>,
    pub updated_at: Date,
    pub created_at: Date,
}

impl Checkin {
    /// Whether the check-in may be stored: every rating is on the scale and
    /// the primary emotion is one of the known labels.
    pub open spec fn valid(self) -> bool {
        &&& is_rating(self.mood_rating)
        &&& is_rating(self.intensity)
        &&& is_rating(self.energy_level)
        &&& is_rating(self.stress_level)
        &&& is_rating(self.wellbeing)
        &&& is_emotion(self.primary_emotion@)
    }

    /// A check-in that has not been stored yet, made at the instant `at`.
    pub open spec fn fresh(
        user: ObjectId,
        mood_rating: u8,
        primary_emotion: String,
        intensity: u8,
        energy_level: u8,
        stress_level: u8,
        wellbeing: u8,
        notes: Option<String>,
        at: Date,
    ) -> Checkin {
        Checkin {
            id: None,
            user,
            mood_rating,
            primary_emotion,
            intensity,
            energy_level,
            stress_level,
            wellbeing,
            notes,
            updated_at: at,
            created_at: at,
        }
    }

    /// A new check-in dated `at`.
    pub fn new_at(
        user: ObjectId,
        mood_rating: u8,
        primary_emotion: String,
        intensity: u8,
        energy_level: u8,
        stress_level: u8,
        wellbeing: u8,
        notes: Option<String>,
        at: Date,
    ) -> (checkin: Self)
        ensures
            checkin == Checkin::fresh(
                user,
                mood_rating,
                primary_emotion,
                intensity,
                energy_level,
                stress_level,
                wellbeing,
                notes,
                at,
            ),
    {
        Checkin {
            id: None,
            user,
            mood_rating,
            primary_emotion,
            intensity,
            energy_level,
            stress_level,
            wellbeing,
            notes,
            updated_at: at,
            created_at: at,
        }
    }

    /// A new check-in dated by the system clock.
    pub fn new(
        user: ObjectId,
        mood_rating: u8,
        primary_emotion: String,
        intensity: u8,
        energy_level: u8,
        stress_level: u8,
        wellbeing: u8,
        notes: Option<String>,
    ) -> (checkin: Self)
        ensures
            checkin == Checkin::fresh(
                user,
                mood_rating,
                primary_emotion,
                intensity,
                energy_level,
                stress_level,
                wellbeing,
                notes,
                checkin.created_at,
            ),
    {
        Checkin::new_at(
            user,
            mood_rating,
            primary_emotion,
            intensity,
            energy_level,
            stress_level,
            wellbeing,
            notes,
            now(),
        )
    }

    /// Tells whether the check-in may be stored.
    pub fn is_valid(&self) -> (valid: bool)
        ensures
            valid == self.valid(),
    {
        is_valid_rating(self.mood_rating) && is_valid_rating(self.intensity) && is_valid_rating(
            self.energy_level,
        ) && is_valid_rating(self.stress_level) && is_valid_rating(self.wellbeing)
            && is_valid_emotion(self.primary_emotion.as_str())
    }

    /// The public form of a stored check-in.
    pub open spec fn public(self) -> PublicCheckin
        recommends
            self.id is Some,
    {
        PublicCheckin {
            id: self.id->0,
            user: self.user,
            mood_rating: self.mood_rating,
            primary_emotion: self.primary_emotion,
            intensity: self.intensity,
            energy_level: self.energy_level,
            stress_level: self.stress_level,
            wellbeing: self.wellbeing,
            notes: self.notes,
            updated_at: self.updated_at,
            created_at: self.created_at,
        }
    }
}

/// A copy of an optional text.
pub fn copy_of_text(text: &Option<String>) -> (copy: Option<String>)
    ensures
        copy == *text,
{
    match text {
        Some(text) => Some(text.clone()),
        None => None,
    }
}

impl Checkin {
    /// A copy of the check-in.
    pub fn duplicate(&self) -> (copy: Self)
        ensures
            copy == *self,
    {
        Checkin {
            id: self.id,
            user: self.user,
            mood_rating: self.mood_rating,
            primary_emotion: self.primary_emotion.clone(),
            intensity: self.intensity,
            energy_level: self.energy_level,
            stress_level: self.stress_level,
            wellbeing: self.wellbeing,
            notes: copy_of_text(&self.notes),
            updated_at: self.updated_at,
            created_at: self.created_at,
        }
    }

    /// The public form of a check-in that has been stored.
    pub fn to_public(&self) -> (public: PublicCheckin)
        requires
            self.id is Some,
        ensures
            public == self.public(),
    {
        PublicCheckin::from(self.duplicate())
    }
}

impl ModelExt for Checkin {
    type Filter = CheckinFilter;

    open spec fn id_of(&self) -> Option<ObjectId> {
        self.id
    }

    open spec fn created_of(&self) -> Date {
        self.created_at
    }

    /// Check-ins have no value that must be unique.
    open spec fn unique_of(&self) -> Option<Seq<char>> {
        None
    }

    open spec fn storable(&self) -> bool {
        self.valid()
    }

    open spec fn selected(&self, filter: &CheckinFilter) -> bool {
        &&& self.user@ == filter.user@
        &&& filter.window matches Some(window) ==> window.holds(self.created_at)
    }

    open spec fn identified(self, id: ObjectId) -> Checkin {
        Checkin { id: Some(id), ..self }
    }

    open spec fn collection_of() -> Seq<char> {
        "checkins"@
    }

    /// One index, on the owner and the instant of creation together; it
    /// serves the listing of a user's check-ins and allows duplicates.
    open spec fn index_specs() -> Seq<IndexView> {
        seq![IndexView { keys: seq!["user"@, "created_at"@], unique: false }]
    }

    proof fn lemma_identified(self, id: ObjectId) {
    }

    fn collection_name() -> &'static str {
        "checkins"
    }

    fn indexes() -> Vec<IndexModel> {
        let list = vec![IndexModel { keys: vec!["user", "created_at"], unique: false }];
        proof {
            assert(list@[0]@.keys =~= seq!["user"@, "created_at"@]);
            assert(index_views(list@) =~= Self::index_specs());
        }
        list
    }

    fn created_at(&self) -> Date {
        self.created_at
    }

    fn clashes_with(&self, other: &Self) -> bool {
        false
    }

    fn is_storable(&self) -> bool {
        self.is_valid()
    }

    fn is_selected(&self, filter: &CheckinFilter) -> bool {
        self.user == filter.user && match filter.window {
            Some(window) => window.contains(self.created_at),
            None => true,
        }
    }

    fn with_id(self, id: ObjectId) -> Checkin {
        let Checkin {
            id: _,
            user,
            mood_rating,
            primary_emotion,
            intensity,
            energy_level,
            stress_level,
            wellbeing,
            notes,
            updated_at,
            created_at,
        } = self;
        Checkin {
            id: Some(id),
            user,
            mood_rating,
            primary_emotion,
            intensity,
            energy_level,
            stress_level,
            wellbeing,
            notes,
            updated_at,
            created_at,
        }
    }

    fn copy(&self) -> Checkin {
        self.duplicate()
    }
}

impl PublicCheckin {
    /// The public form of a check-in that has been stored, and so has an
    /// identifier.
    pub fn from(checkin: Checkin) -> (public: Self)
        requires
            checkin.id is Some,
        ensures
            public == checkin.public(),
    {
        let Checkin {
            id,
            user,
            mood_rating,
            primary_emotion,
            intensity,
            energy_level,
            stress_level,
            wellbeing,
            notes,
            updated_at,
            created_at,
        } = checkin;
        PublicCheckin {
            id: id.unwrap(),
            user,
            mood_rating,
            primary_emotion,
            intensity,
            energy_level,
            stress_level,
            wellbeing,
            notes,
            updated_at,
            created_at,
        }
    }
}

} // verus!
