//! An actor's alignment: two axes of accumulated scores and the label that
//! is derived from them.

use crate::events::create::services::{spec_checkable, spec_mistakes, SpellCheckService};
use crate::leveling::{
    calculate_experience, spec_calculate_experience, spec_capped_level, LevelResponse,
};
use vstd::prelude::*;

verus! {

/// The highest value that a sentiment score takes: one, in millionths.
pub const SCORE_ONE: u32 = 1_000_000;

/// A sentiment score above this many millionths also wears down the
/// neutral moral score.
pub const STRONG_SCORE: u32 = 700_000;

/// Up to this many spelling mistakes a text counts as lawful.
pub const LAWFUL_MISTAKES: usize = 6;

/// Up to this many spelling mistakes a text counts as moderately chaotic;
/// beyond it, as very chaotic.
pub const MODERATE_MISTAKES: usize = 9;

/// Which way a text leans.
#[derive(Clone, Copy, Debug, PartialEq, Eq, Structural)]
pub enum SentimentPolarity {
    Positive,
    Negative,
}

/// What a sentiment model says of a text. The score is a fixed-point
/// fraction of one, in millionths.
#[derive(Clone, Copy, Debug, PartialEq, Eq, Structural)]
pub struct Sentiment {
    pub polarity: SentimentPolarity,
    pub score_micros: u32,
}

impl Sentiment {
    /// The score lies between zero and one.
    pub open spec fn wf(self) -> bool {
        self.score_micros <= SCORE_ONE
    }

    /// The points that the score is worth: a hundred times the score,
    /// rounded to the nearest integer, halves upward.
    pub open spec fn spec_points(self) -> int {
        (self.score_micros + 5_000) / 10_000
    }

    /// Whether the score is above seven tenths.
    pub open spec fn spec_is_strong(self) -> bool {
        self.score_micros > STRONG_SCORE
    }

    /// Returns the points that the score is worth.
    pub fn points(&self) -> (points: i32)
        requires
            self.wf(),
        ensures
            points == self.spec_points(),
            0 <= points <= 100,
    {
        ((self.score_micros + 5_000) / 10_000) as i32
    }

    /// Returns whether the score is above seven tenths.
    pub fn is_strong(&self) -> (strong: bool)
        ensures
            strong == self.spec_is_strong(),
    {
        self.score_micros > STRONG_SCORE
    }
}

/// The difference `value - loss`, or zero where that is negative.
pub open spec fn spec_worn_down(value: int, loss: int) -> int {
    if value - loss < 0 {
        0
    } else {
        value - loss
    }
}

fn worn_down(value: i32, loss: i32) -> (rest: i32)
    requires
        0 <= value,
        0 <= loss,
    ensures
        rest == spec_worn_down(value as int, loss as int),
        0 <= rest <= value,
{
    if value < loss {
        0
    } else {
        value - loss
    }
}

/// The moral leaning of an actor.
#[derive(Clone, Copy, Debug, PartialEq, Eq, Structural)]
pub enum Moral {
    Evil,
    Neutral,
    Good,
}

/// The ethical leaning of an actor.
#[derive(Clone, Copy, Debug, PartialEq, Eq, Structural)]
pub enum Ethical {
    Chaotic,
    Neutral,
    Lawful,
}

/// The nine alignment labels.
#[derive(Clone, Copy, Debug, PartialEq, Eq, Structural)]
pub enum Alignment {
    LawfulGood,
    NeutralGood,
    ChaoticGood,
    LawfulNeutral,
    TrueNeutral,
    ChaoticNeutral,
    LawfulEvil,
    NeutralEvil,
    ChaoticEvil,
}

/// The scores of the moral axis as mathematical integers.
pub struct MoralScores {
    pub good: int,
    pub neutral: int,
    pub evil: int,
}

/// The scores of the ethical axis as mathematical integers.
pub struct EthicalScores {
    pub lawful: int,
    pub neutral: int,
    pub chaotic: int,
}

/// The scores of both axes.
pub struct AlignmentScores {
    pub moral: MoralScores,
    pub ethical: EthicalScores,
}

impl MoralScores {
    /// No score is negative.
    pub open spec fn wf(self) -> bool {
        0 <= self.good && 0 <= self.neutral && 0 <= self.evil
    }

    /// The scores after a text of the given sentiment: the side that the
    /// text leans to gains the points, the opposite side loses a quarter of
    /// them, and a strong score costs the neutral score a sixth of them.
    pub open spec fn after_sentiment(self, sentiment: Sentiment) -> MoralScores {
        let points = sentiment.spec_points();
        let neutral = if sentiment.spec_is_strong() {
            spec_worn_down(self.neutral, points / 6)
        } else {
            self.neutral
        };
        match sentiment.polarity {
            SentimentPolarity::Positive => MoralScores {
                good: self.good + points,
                neutral,
                evil: spec_worn_down(self.evil, points / 4),
            },
            SentimentPolarity::Negative => MoralScores {
                good: spec_worn_down(self.good, points / 4),
                neutral,
                evil: self.evil + points,
            },
        }
    }

    /// The leaning: a side wins only where it strictly exceeds both
    /// others; every tie is neutral.
    pub open spec fn leaning(self) -> Moral {
        if self.good > self.evil && self.good > self.neutral {
            Moral::Good
        } else if self.evil > self.good && self.evil > self.neutral {
            Moral::Evil
        } else {
            Moral::Neutral
        }
    }
}

impl EthicalScores {
    /// No score is negative.
    pub open spec fn wf(self) -> bool {
        0 <= self.lawful && 0 <= self.neutral && 0 <= self.chaotic
    }

    /// The scores after a text with `mistakes` spelling mistakes: few
    /// mistakes are lawful, more are chaotic.
    pub open spec fn after_mistakes(self, mistakes: int) -> EthicalScores {
        if mistakes <= LAWFUL_MISTAKES {
            EthicalScores {
                lawful: self.lawful + 15,
                neutral: self.neutral,
                chaotic: spec_worn_down(self.chaotic, 15int / 4),
            }
        } else if mistakes <= MODERATE_MISTAKES {
            EthicalScores {
                lawful: spec_worn_down(self.lawful, 25int / 3),
                neutral: spec_worn_down(self.neutral, 25int / 6),
                chaotic: self.chaotic + 25,
            }
        } else {
            EthicalScores {
                lawful: spec_worn_down(self.lawful, 40int / 2),
                neutral: spec_worn_down(self.neutral, 40int / 4),
                chaotic: self.chaotic + 40,
            }
        }
    }

    /// The leaning: a side wins only where it strictly exceeds both
    /// others; every tie is neutral.
    pub open spec fn leaning(self) -> Ethical {
        if self.lawful > self.chaotic && self.lawful > self.neutral {
            Ethical::Lawful
        } else if self.chaotic > self.lawful && self.chaotic > self.neutral {
            Ethical::Chaotic
        } else {
            Ethical::Neutral
        }
    }
}

/// The label of an ethical and a moral leaning.
pub open spec fn spec_alignment(ethical: Ethical, moral: Moral) -> Alignment {
    match (ethical, moral) {
        (Ethical::Chaotic, Moral::Evil) => Alignment::ChaoticEvil,
        (Ethical::Chaotic, Moral::Neutral) => Alignment::ChaoticNeutral,
        (Ethical::Chaotic, Moral::Good) => Alignment::ChaoticGood,
        (Ethical::Neutral, Moral::Evil) => Alignment::NeutralEvil,
        (Ethical::Neutral, Moral::Neutral) => Alignment::TrueNeutral,
        (Ethical::Neutral, Moral::Good) => Alignment::NeutralGood,
        (Ethical::Lawful, Moral::Evil) => Alignment::LawfulEvil,
        (Ethical::Lawful, Moral::Neutral) => Alignment::LawfulNeutral,
        (Ethical::Lawful, Moral::Good) => Alignment::LawfulGood,
    }
}

impl AlignmentScores {
    /// No score is negative.
    pub open spec fn wf(self) -> bool {
        self.moral.wf() && self.ethical.wf()
    }

    /// The label that the scores amount to.
    pub open spec fn label(self) -> Alignment {
        spec_alignment(self.ethical.leaning(), self.moral.leaning())
    }

    /// The scores after a text of the given sentiment with `mistakes`
    /// spelling mistakes.
    pub open spec fn after_text(self, sentiment: Sentiment, mistakes: int) -> AlignmentScores {
        AlignmentScores {
            moral: self.moral.after_sentiment(sentiment),
            ethical: self.ethical.after_mistakes(mistakes),
        }
    }

    /// Whether the scores after such a text still fit their machine type.
    pub open spec fn has_room_for(self, sentiment: Sentiment, mistakes: int) -> bool {
        let after = self.after_text(sentiment, mistakes);
        after.moral.good <= i32::MAX && after.moral.evil <= i32::MAX && after.ethical.lawful
            <= i32::MAX && after.ethical.chaotic <= i32::MAX
    }

    /// Whether the scores still fit their machine type after a text of the
    /// given sentiment, however many spelling mistakes it holds.
    pub open spec fn has_room_for_text(self, sentiment: Sentiment) -> bool {
        self.has_room_for(sentiment, 0) && self.has_room_for(sentiment, MODERATE_MISTAKES as int)
            && self.has_room_for(sentiment, MODERATE_MISTAKES + 1)
    }
}

/// The moral axis: how good, neutral and evil an actor has shown itself.
#[derive(Clone, Copy, Debug, PartialEq, Eq, Structural)]
pub struct MoralAxis {
    good: i32,
    neutral: i32,
    evil: i32,
}

/// The ethical axis: how lawful, neutral and chaotic an actor has shown
/// itself.
#[derive(Clone, Copy, Debug, PartialEq, Eq, Structural)]
pub struct EthicalAxis {
    lawful: i32,
    neutral: i32,
    chaotic: i32,
}

impl View for MoralAxis {
    type V = MoralScores;

    closed spec fn view(&self) -> MoralScores {
        MoralScores { good: self.good as int, neutral: self.neutral as int, evil: self.evil as int }
    }
}

impl View for EthicalAxis {
    type V = EthicalScores;

    closed spec fn view(&self) -> EthicalScores {
        EthicalScores {
            lawful: self.lawful as int,
            neutral: self.neutral as int,
            chaotic: self.chaotic as int,
        }
    }
}

fn floored(value: i32) -> (floored: i32)
    ensures
        floored == (if value < 0 { 0 } else { value as int }),
{
    if value < 0 {
        0
    } else {
        value
    }
}

impl MoralAxis {
    /// Builds the axis from three scores; a negative score counts as zero.
    pub fn new(good: i32, neutral: i32, evil: i32) -> (axis: MoralAxis)
        ensures
            axis@ == (MoralScores {
                good: spec_worn_down(good as int, 0),
                neutral: spec_worn_down(neutral as int, 0),
                evil: spec_worn_down(evil as int, 0),
            }),
            axis@.wf(),
    {
        MoralAxis { good: floored(good), neutral: floored(neutral), evil: floored(evil) }
    }

    pub fn good(&self) -> (good: i32)
        ensures
            good == self@.good,
    {
        self.good
    }

    pub fn neutral(&self) -> (neutral: i32)
        ensures
            neutral == self@.neutral,
    {
        self.neutral
    }

    pub fn evil(&self) -> (evil: i32)
        ensures
            evil == self@.evil,
    {
        self.evil
    }

    /// Two axes with the same scores are the same axis, and every score
    /// fits its machine type.
    pub proof fn lemma_view(self, other: MoralAxis)
        ensures
            self@ == other@ ==> self == other,
            i32::MIN <= self@.good <= i32::MAX,
            i32::MIN <= self@.neutral <= i32::MAX,
            i32::MIN <= self@.evil <= i32::MAX,
    {
    }

    /// Folds the sentiment of one text into the axis.
    pub fn apply_sentiment(&mut self, sentiment: Sentiment)
        requires
            old(self)@.wf(),
            sentiment.wf(),
            old(self)@.after_sentiment(sentiment).good <= i32::MAX,
            old(self)@.after_sentiment(sentiment).evil <= i32::MAX,
        ensures
            final(self)@ == old(self)@.after_sentiment(sentiment),
            final(self)@.wf(),
    {
        let points: i32 = sentiment.points();
        match sentiment.polarity {
            SentimentPolarity::Positive => {
                self.good = self.good + points;
                self.evil = worn_down(self.evil, points / 4);
            },
            SentimentPolarity::Negative => {
                self.evil = self.evil + points;
                self.good = worn_down(self.good, points / 4);
            },
        }
        if sentiment.is_strong() {
            self.neutral = worn_down(self.neutral, points / 6);
        }
    }

    /// Returns the leaning of the axis.
    pub fn leaning(&self) -> (leaning: Moral)
        ensures
            leaning == self@.leaning(),
    {
        if self.good > self.evil && self.good > self.neutral {
            Moral::Good
        } else if self.evil > self.good && self.evil > self.neutral {
            Moral::Evil
        } else {
            Moral::Neutral
        }
    }
}

impl EthicalAxis {
    /// Builds the axis from three scores; a negative score counts as zero.
    pub fn new(lawful: i32, neutral: i32, chaotic: i32) -> (axis: EthicalAxis)
        ensures
            axis@ == (EthicalScores {
                lawful: spec_worn_down(lawful as int, 0),
                neutral: spec_worn_down(neutral as int, 0),
                chaotic: spec_worn_down(chaotic as int, 0),
            }),
            axis@.wf(),
    {
        EthicalAxis {
            lawful: floored(lawful),
            neutral: floored(neutral),
            chaotic: floored(chaotic),
        }
    }

    pub fn lawful(&self) -> (lawful: i32)
        ensures
            lawful == self@.lawful,
    {
        self.lawful
    }

    pub fn neutral(&self) -> (neutral: i32)
        ensures
            neutral == self@.neutral,
    {
        self.neutral
    }

    pub fn chaotic(&self) -> (chaotic: i32)
        ensures
            chaotic == self@.chaotic,
    {
        self.chaotic
    }

    /// Two axes with the same scores are the same axis, and every score
    /// fits its machine type.
    pub proof fn lemma_view(self, other: EthicalAxis)
        ensures
            self@ == other@ ==> self == other,
            i32::MIN <= self@.lawful <= i32::MAX,
            i32::MIN <= self@.neutral <= i32::MAX,
            i32::MIN <= self@.chaotic <= i32::MAX,
    {
    }

    /// Folds the number of spelling mistakes of one text into the axis.
    pub fn apply_mistakes(&mut self, mistakes: usize)
        requires
            old(self)@.wf(),
            old(self)@.after_mistakes(mistakes as int).lawful <= i32::MAX,
            old(self)@.after_mistakes(mistakes as int).chaotic <= i32::MAX,
        ensures
            final(self)@ == old(self)@.after_mistakes(mistakes as int),
            final(self)@.wf(),
    {
        if mistakes <= LAWFUL_MISTAKES {
            let points: i32 = 15;
            self.lawful = self.lawful + points;
            self.chaotic = worn_down(self.chaotic, points / 4);
        } else if mistakes <= MODERATE_MISTAKES {
            let points: i32 = 25;
            self.chaotic = self.chaotic + points;
            self.lawful = worn_down(self.lawful, points / 3);
            self.neutral = worn_down(self.neutral, points / 6);
        } else {
            let points: i32 = 40;
            self.chaotic = self.chaotic + points;
            self.lawful = worn_down(self.lawful, points / 2);
            self.neutral = worn_down(self.neutral, points / 4);
        }
    }

    /// Returns the leaning of the axis.
    pub fn leaning(&self) -> (leaning: Ethical)
        ensures
            leaning == self@.leaning(),
    {
        if self.lawful > self.chaotic && self.lawful > self.neutral {
            Ethical::Lawful
        } else if self.chaotic > self.lawful && self.chaotic > self.neutral {
            Ethical::Chaotic
        } else {
            Ethical::Neutral
        }
    }
}


impl Alignment {
    /// The text of a label.
    pub open spec fn label_text(self) -> Seq<char> {
        match self {
            Alignment::LawfulGood => "lawful good"@,
            Alignment::NeutralGood => "neutral good"@,
            Alignment::ChaoticGood => "chaotic good"@,
            Alignment::LawfulNeutral => "lawful neutral"@,
            Alignment::TrueNeutral => "true neutral"@,
            Alignment::ChaoticNeutral => "chaotic neutral"@,
            Alignment::LawfulEvil => "lawful evil"@,
            Alignment::NeutralEvil => "neutral evil"@,
            Alignment::ChaoticEvil => "chaotic evil"@,
        }
    }

    /// Returns the text of the label.
    pub fn to_string(self) -> (text: String)
        ensures
            text@ == self.label_text(),
    {
        match self {
            Alignment::LawfulGood => "lawful good".to_owned(),
            Alignment::NeutralGood => "neutral good".to_owned(),
            Alignment::ChaoticGood => "chaotic good".to_owned(),
            Alignment::LawfulNeutral => "lawful neutral".to_owned(),
            Alignment::TrueNeutral => "true neutral".to_owned(),
            Alignment::ChaoticNeutral => "chaotic neutral".to_owned(),
            Alignment::LawfulEvil => "lawful evil".to_owned(),
            Alignment::NeutralEvil => "neutral evil".to_owned(),
            Alignment::ChaoticEvil => "chaotic evil".to_owned(),
        }
    }

    /// No two labels share a text.
    pub proof fn lemma_label_texts_differ(self, other: Alignment)
        ensures
            self.label_text() == other.label_text() <==> self == other,
    {
        reveal_strlit("lawful good");
        reveal_strlit("neutral good");
        reveal_strlit("chaotic good");
        reveal_strlit("lawful neutral");
        reveal_strlit("true neutral");
        reveal_strlit("chaotic neutral");
        reveal_strlit("lawful evil");
        reveal_strlit("neutral evil");
        reveal_strlit("chaotic evil");
        if self != other && self.label_text().len() == other.label_text().len() {
            let a = self.label_text();
            let b = other.label_text();
            assert(a[0] != b[0] || a[7] != b[7] || a[8] != b[8]);
        }
    }

    /// Reads a label from its text: the label whose text `value` is, and
    /// nothing where `value` is the text of no label.
    pub fn from_label(value: &str) -> (label: Option<Alignment>)
        ensures
            match label {
                Some(found) => value@ == found.label_text(),
                None => forall|any: Alignment| value@ != #[trigger] any.label_text(),
            },
    {
        let text = value.to_owned();
        let label = if text == Alignment::LawfulGood.to_string() {
            Some(Alignment::LawfulGood)
        } else if text == Alignment::NeutralGood.to_string() {
            Some(Alignment::NeutralGood)
        } else if text == Alignment::ChaoticGood.to_string() {
            Some(Alignment::ChaoticGood)
        } else if text == Alignment::LawfulNeutral.to_string() {
            Some(Alignment::LawfulNeutral)
        } else if text == Alignment::TrueNeutral.to_string() {
            Some(Alignment::TrueNeutral)
        } else if text == Alignment::ChaoticNeutral.to_string() {
            Some(Alignment::ChaoticNeutral)
        } else if text == Alignment::LawfulEvil.to_string() {
            Some(Alignment::LawfulEvil)
        } else if text == Alignment::NeutralEvil.to_string() {
            Some(Alignment::NeutralEvil)
        } else if text == Alignment::ChaoticEvil.to_string() {
            Some(Alignment::ChaoticEvil)
        } else {
            None
        };
        label
    }

    /// Returns the label of an ethical and a moral leaning.
    pub fn of_leanings(ethical: Ethical, moral: Moral) -> (label: Alignment)
        ensures
            label == spec_alignment(ethical, moral),
    {
        match (ethical, moral) {
            (Ethical::Chaotic, Moral::Evil) => Alignment::ChaoticEvil,
            (Ethical::Chaotic, Moral::Neutral) => Alignment::ChaoticNeutral,
            (Ethical::Chaotic, Moral::Good) => Alignment::ChaoticGood,
            (Ethical::Neutral, Moral::Evil) => Alignment::NeutralEvil,
            (Ethical::Neutral, Moral::Neutral) => Alignment::TrueNeutral,
            (Ethical::Neutral, Moral::Good) => Alignment::NeutralGood,
            (Ethical::Lawful, Moral::Evil) => Alignment::LawfulEvil,
            (Ethical::Lawful, Moral::Neutral) => Alignment::LawfulNeutral,
            (Ethical::Lawful, Moral::Good) => Alignment::LawfulGood,
        }
    }
}

impl Default for Alignment {
    fn default() -> (label: Alignment)
        ensures
            label == Alignment::TrueNeutral,
    {
        Alignment::TrueNeutral
    }
}

/// The alignment of an actor: both axes and the label derived from them.
#[derive(Clone, Copy, Debug, PartialEq, Eq, Structural)]
pub struct UserAlignment {
    moral: MoralAxis,
    ethical: EthicalAxis,
    current_align: Alignment,
}

impl View for UserAlignment {
    type V = AlignmentScores;

    closed spec fn view(&self) -> AlignmentScores {
        AlignmentScores { moral: self.moral@, ethical: self.ethical@ }
    }
}

impl UserAlignment {
    /// The label that is stored with the scores.
    pub closed spec fn spec_current_align(&self) -> Alignment {
        self.current_align
    }

    /// No score is negative, and the stored label is the one that the
    /// scores amount to.
    pub open spec fn wf(&self) -> bool {
        self@.wf() && self.spec_current_align() == self@.label()
    }

    /// The alignment of an actor of whom nothing is known yet: every score
    /// is zero.
    pub fn new() -> (alignment: UserAlignment)
        ensures
            alignment.wf(),
            alignment@ == (AlignmentScores {
                moral: MoralScores { good: 0, neutral: 0, evil: 0 },
                ethical: EthicalScores { lawful: 0, neutral: 0, chaotic: 0 },
            }),
            alignment.spec_current_align() == Alignment::TrueNeutral,
    {
        UserAlignment {
            moral: MoralAxis::new(0, 0, 0),
            ethical: EthicalAxis::new(0, 0, 0),
            current_align: Alignment::TrueNeutral,
        }
    }

    /// Builds the alignment from its two axes; the label is derived.
    pub fn from_axes(moral: MoralAxis, ethical: EthicalAxis) -> (alignment: UserAlignment)
        requires
            moral@.wf(),
            ethical@.wf(),
        ensures
            alignment.wf(),
            alignment@ == (AlignmentScores { moral: moral@, ethical: ethical@ }),
    {
        let mut alignment = UserAlignment { moral, ethical, current_align: Alignment::TrueNeutral };
        alignment.update_current_alignment();
        alignment
    }

    pub fn moral(&self) -> (moral: MoralAxis)
        ensures
            moral@ == self@.moral,
    {
        self.moral
    }

    pub fn ethical(&self) -> (ethical: EthicalAxis)
        ensures
            ethical@ == self@.ethical,
    {
        self.ethical
    }

    pub fn current_align(&self) -> (label: Alignment)
        ensures
            label == self.spec_current_align(),
    {
        self.current_align
    }

    /// Two alignments with the same scores and the same stored label are
    /// the same alignment. The label of a well-formed alignment follows
    /// from its scores, so two well-formed alignments with the same scores
    /// are the same alignment.
    pub proof fn lemma_view(self, other: UserAlignment)
        ensures
            self@ == other@ && self.spec_current_align() == other.spec_current_align() ==> self
                == other,
            self.wf() && other.wf() && self@ == other@ ==> self == other,
    {
        self.moral.lemma_view(other.moral);
        self.ethical.lemma_view(other.ethical);
    }

    /// Returns whether the scores still fit their machine type after a text
    /// of the given sentiment, however many spelling mistakes it holds.
    pub fn has_room_for_text(&self, sentiment: Sentiment) -> (room: bool)
        requires
            self.wf(),
            sentiment.wf(),
        ensures
            room == self@.has_room_for_text(sentiment),
    {
        let points: i32 = sentiment.points();
        let moral_room = match sentiment.polarity {
            SentimentPolarity::Positive => self.moral.good <= i32::MAX - points,
            SentimentPolarity::Negative => self.moral.evil <= i32::MAX - points,
        };
        moral_room && self.ethical.lawful <= i32::MAX - 15 && self.ethical.chaotic <= i32::MAX
            - 40
    }

    /// Folds the signals of one text into both axes and derives the label
    /// anew.
    pub fn apply_text_signals(&mut self, sentiment: Sentiment, mistakes: usize)
        requires
            old(self).wf(),
            sentiment.wf(),
            old(self)@.has_room_for(sentiment, mistakes as int),
        ensures
            final(self)@ == old(self)@.after_text(sentiment, mistakes as int),
            final(self).wf(),
    {
        self.moral.apply_sentiment(sentiment);
        self.ethical.apply_mistakes(mistakes);
        self.update_current_alignment();
    }

    /// Updates the alignment from the text of a post. Without a text, and
    /// with a text that the spell checker cannot take, nothing changes.
    /// Otherwise the sentiment moves the moral axis, the number of mistakes
    /// that the spell checker finds in the text moves the ethical axis,
    /// and the label is derived anew.
    pub fn update_alignment_from_text(
        &mut self,
        text: Option<&String>,
        sentiment: Sentiment,
        spellcheck: &mut SpellCheckService,
    )
        requires
            old(self).wf(),
            sentiment.wf(),
            text is Some ==> old(self)@.has_room_for_text(sentiment),
        ensures
            final(self).wf(),
            match text {
                Some(given) if spec_checkable(given@) => final(self)@ == old(self)@.after_text(
                    sentiment,
                    spec_mistakes(given@) as int,
                ),
                _ => *final(self) == *old(self),
            },
    {
        if let Some(text) = text {
            if let Some(mistakes) = spellcheck.count_mistakes(text) {
                self.apply_text_signals(sentiment, mistakes);
            }
        }
    }

    /// Derives the label from the two axes.
    fn update_current_alignment(&mut self)
        ensures
            final(self)@ == old(self)@,
            final(self).spec_current_align() == old(self)@.label(),
    {
        let moral_leaning = self.moral.leaning();
        let ethical_leaning = self.ethical.leaning();
        self.current_align = Alignment::of_leanings(ethical_leaning, moral_leaning);
    }
}

/// Tie-break: where the three scores of an axis are equal, all zero
/// included, its leaning is neutral.
pub proof fn lemma_ties_are_neutral(scores: AlignmentScores)
    ensures
        scores.moral.good == scores.moral.evil && scores.moral.evil == scores.moral.neutral
            ==> scores.moral.leaning() == Moral::Neutral,
        scores.ethical.lawful == scores.ethical.chaotic && scores.ethical.chaotic
            == scores.ethical.neutral ==> scores.ethical.leaning() == Ethical::Neutral,
        scores.moral.leaning() == Moral::Neutral <==> (scores.label() == Alignment::LawfulNeutral
            || scores.label() == Alignment::TrueNeutral || scores.label()
            == Alignment::ChaoticNeutral),
{
}

/// A text never makes a score negative.
pub proof fn lemma_text_keeps_scores_well_formed(
    scores: AlignmentScores,
    sentiment: Sentiment,
    mistakes: int,
)
    requires
        scores.wf(),
        sentiment.wf(),
    ensures
        scores.after_text(sentiment, mistakes).wf(),
{
}

/// What the profile service knows of an actor.
pub struct Profile {
    /// The identity of the actor.
    pub did: String,
    /// The name that the actor shows.
    pub handle: String,
    /// The experience that the actor starts with.
    pub seed_experience: i32,
}

/// An actor with its progression and its alignment.
pub struct Character {
    /// The identity of the actor.
    pub user_did: String,
    /// The name that the actor shows.
    pub name: String,
    /// The progression state.
    pub leveling_state: LevelResponse,
    /// The alignment.
    pub alignment: UserAlignment,
    /// The number of posts.
    pub posts_count: i32,
}

impl Character {
    /// The level is the one that the experience amounts to, clamped at the
    /// cap, and the alignment is well formed.
    pub open spec fn wf(&self) -> bool {
        &&& self.leveling_state.level == spec_capped_level(self.leveling_state.experience as int)
        &&& self.alignment.wf()
    }

    /// The experience that a profile seeds an actor with: what the profile
    /// says, and nothing where it says less than nothing.
    pub open spec fn spec_seed(profile: Profile) -> int {
        if profile.seed_experience < 0 {
            0
        } else {
            profile.seed_experience as int
        }
    }

    /// Whether this is the actor that `profile` gives rise to: it starts
    /// without experience and is then given the seed of the profile; every
    /// score of its alignment is zero.
    pub open spec fn seeded_from(&self, profile: Profile) -> bool {
        &&& self.wf()
        &&& self.user_did == profile.did
        &&& self.name == profile.handle
        &&& self.leveling_state == spec_calculate_experience(0, Character::spec_seed(profile))
        &&& self.leveling_state.experience == Character::spec_seed(profile)
        &&& self.alignment@ == (AlignmentScores {
            moral: MoralScores { good: 0, neutral: 0, evil: 0 },
            ethical: EthicalScores { lawful: 0, neutral: 0, chaotic: 0 },
        })
        &&& self.posts_count == 0
    }

    /// Builds the actor that a profile gives rise to.
    pub fn from_profile(profile: Profile) -> (character: Character)
        ensures
            character.seeded_from(profile),
    {
        let seed: i32 = if profile.seed_experience < 0 {
            0
        } else {
            profile.seed_experience
        };
        Character {
            user_did: profile.did,
            name: profile.handle,
            leveling_state: calculate_experience(0, seed),
            alignment: UserAlignment::new(),
            posts_count: 0,
        }
    }
}

} // verus!
