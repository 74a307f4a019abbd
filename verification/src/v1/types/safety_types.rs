//! Harm categories, probabilities and thresholds.

use crate::v1::json::{add_member, items_view, no_members, Json, JsonView};
use crate::v1::text::text_eq;
use vstd::prelude::*;

verus! {

/// Harm categories that would cause prompts or candidates to be blocked.
#[derive(Debug, Clone, Copy, PartialEq, Eq)]
pub enum HarmCategory {
    HarmCategoryUnspecified,
    HarmCategoryHateSpeech,
    HarmCategorySexuallyExplicit,
    HarmCategoryHarassment,
    HarmCategoryDangerousContent,
}

impl HarmCategory {
    /// The name of this category on the wire.
    pub open spec fn wire_name(self) -> Seq<char> {
        match self {
            HarmCategory::HarmCategoryUnspecified => "HARM_CATEGORY_UNSPECIFIED"@,
            HarmCategory::HarmCategoryHateSpeech => "HARM_CATEGORY_HATE_SPEECH"@,
            HarmCategory::HarmCategorySexuallyExplicit => "HARM_CATEGORY_SEXUALLY_EXPLICIT"@,
            HarmCategory::HarmCategoryHarassment => "HARM_CATEGORY_HARASSMENT"@,
            HarmCategory::HarmCategoryDangerousContent => "HARM_CATEGORY_DANGEROUS_CONTENT"@,
        }
    }

    /// The category that a wire name stands for, if it is one.
    pub open spec fn named(name: Seq<char>) -> Option<HarmCategory> {
        if name == HarmCategory::HarmCategoryUnspecified.wire_name() {
            Some(HarmCategory::HarmCategoryUnspecified)
        } else if name == HarmCategory::HarmCategoryHateSpeech.wire_name() {
            Some(HarmCategory::HarmCategoryHateSpeech)
        } else if name == HarmCategory::HarmCategorySexuallyExplicit.wire_name() {
            Some(HarmCategory::HarmCategorySexuallyExplicit)
        } else if name == HarmCategory::HarmCategoryHarassment.wire_name() {
            Some(HarmCategory::HarmCategoryHarassment)
        } else if name == HarmCategory::HarmCategoryDangerousContent.wire_name() {
            Some(HarmCategory::HarmCategoryDangerousContent)
        } else {
            None
        }
    }

    /// The name of this category on the wire.
    pub fn to_str(&self) -> (name: &'static str)
        ensures
            name@ == self.wire_name(),
    {
        match self {
            HarmCategory::HarmCategoryUnspecified => "HARM_CATEGORY_UNSPECIFIED",
            HarmCategory::HarmCategoryHateSpeech => "HARM_CATEGORY_HATE_SPEECH",
            HarmCategory::HarmCategorySexuallyExplicit => "HARM_CATEGORY_SEXUALLY_EXPLICIT",
            HarmCategory::HarmCategoryHarassment => "HARM_CATEGORY_HARASSMENT",
            HarmCategory::HarmCategoryDangerousContent => "HARM_CATEGORY_DANGEROUS_CONTENT",
        }
    }

    /// The category that a wire name stands for, if it is one.
    pub fn from_name(name: &str) -> (category: Option<HarmCategory>)
        ensures
            category == HarmCategory::named(name@),
    {
        if text_eq(name, "HARM_CATEGORY_UNSPECIFIED") {
            Some(HarmCategory::HarmCategoryUnspecified)
        } else if text_eq(name, "HARM_CATEGORY_HATE_SPEECH") {
            Some(HarmCategory::HarmCategoryHateSpeech)
        } else if text_eq(name, "HARM_CATEGORY_SEXUALLY_EXPLICIT") {
            Some(HarmCategory::HarmCategorySexuallyExplicit)
        } else if text_eq(name, "HARM_CATEGORY_HARASSMENT") {
            Some(HarmCategory::HarmCategoryHarassment)
        } else if text_eq(name, "HARM_CATEGORY_DANGEROUS_CONTENT") {
            Some(HarmCategory::HarmCategoryDangerousContent)
        } else {
            None
        }
    }

    /// Every category is the one that its wire name stands for.
    pub proof fn lemma_named(self)
        ensures
            HarmCategory::named(self.wire_name()) == Some(self),
    {
        reveal_strlit("HARM_CATEGORY_UNSPECIFIED");
        reveal_strlit("HARM_CATEGORY_HATE_SPEECH");
        reveal_strlit("HARM_CATEGORY_SEXUALLY_EXPLICIT");
        reveal_strlit("HARM_CATEGORY_HARASSMENT");
        reveal_strlit("HARM_CATEGORY_DANGEROUS_CONTENT");
        assert("HARM_CATEGORY_UNSPECIFIED"@.len() == 25);
        assert("HARM_CATEGORY_HATE_SPEECH"@.len() == 25);
        assert("HARM_CATEGORY_SEXUALLY_EXPLICIT"@.len() == 31);
        assert("HARM_CATEGORY_HARASSMENT"@.len() == 24);
        assert("HARM_CATEGORY_DANGEROUS_CONTENT"@.len() == 31);
        assert("HARM_CATEGORY_UNSPECIFIED"@[14] == 'U');
        assert("HARM_CATEGORY_HATE_SPEECH"@[14] == 'H');
        assert("HARM_CATEGORY_SEXUALLY_EXPLICIT"@[14] == 'S');
        assert("HARM_CATEGORY_DANGEROUS_CONTENT"@[14] == 'D');
    }
}

/// HarmProbability specifies the probability that a piece of content is
/// harmful.
///
/// The classification system gives the probability of the content being
/// unsafe. This does not indicate the severity of harm for a piece of
/// content.
#[derive(Debug, Clone, Copy, PartialEq, Eq)]
pub enum HarmProbability {
    /// Probability is unspecified.
    HarmProbabilityUnspecified,
    /// Content has a negligible chance of being unsafe.
    Negligible,
    /// Content has a low chance of being unsafe.
    Low,
    /// Content has a medium chance of being unsafe.
    Medium,
    /// Content has a high chance of being unsafe.
    High,
}

impl HarmProbability {
    /// The name of this probability on the wire.
    pub open spec fn wire_name(self) -> Seq<char> {
        match self {
            HarmProbability::HarmProbabilityUnspecified => "HARM_PROBABILITY_UNSPECIFIED"@,
            HarmProbability::Negligible => "NEGLIGIBLE"@,
            HarmProbability::Low => "LOW"@,
            HarmProbability::Medium => "MEDIUM"@,
            HarmProbability::High => "HIGH"@,
        }
    }

    /// The probability that a wire name stands for, if it is one.
    pub open spec fn named(name: Seq<char>) -> Option<HarmProbability> {
        if name == HarmProbability::HarmProbabilityUnspecified.wire_name() {
            Some(HarmProbability::HarmProbabilityUnspecified)
        } else if name == HarmProbability::Negligible.wire_name() {
            Some(HarmProbability::Negligible)
        } else if name == HarmProbability::Low.wire_name() {
            Some(HarmProbability::Low)
        } else if name == HarmProbability::Medium.wire_name() {
            Some(HarmProbability::Medium)
        } else if name == HarmProbability::High.wire_name() {
            Some(HarmProbability::High)
        } else {
            None
        }
    }

    /// The probability that a wire name stands for, if it is one.
    pub fn from_name(name: &str) -> (probability: Option<HarmProbability>)
        ensures
            probability == HarmProbability::named(name@),
    {
        if text_eq(name, "HARM_PROBABILITY_UNSPECIFIED") {
            Some(HarmProbability::HarmProbabilityUnspecified)
        } else if text_eq(name, "NEGLIGIBLE") {
            Some(HarmProbability::Negligible)
        } else if text_eq(name, "LOW") {
            Some(HarmProbability::Low)
        } else if text_eq(name, "MEDIUM") {
            Some(HarmProbability::Medium)
        } else if text_eq(name, "HIGH") {
            Some(HarmProbability::High)
        } else {
            None
        }
    }

    /// Every probability is the one that its wire name stands for.
    pub proof fn lemma_named(self)
        ensures
            HarmProbability::named(self.wire_name()) == Some(self),
    {
        reveal_strlit("HARM_PROBABILITY_UNSPECIFIED");
        reveal_strlit("NEGLIGIBLE");
        reveal_strlit("LOW");
        reveal_strlit("MEDIUM");
        reveal_strlit("HIGH");
        assert("HARM_PROBABILITY_UNSPECIFIED"@.len() == 28);
        assert("NEGLIGIBLE"@.len() == 10);
        assert("LOW"@.len() == 3);
        assert("MEDIUM"@.len() == 6);
        assert("HIGH"@.len() == 4);
    }
}

/// Threshold above which a prompt or candidate will be blocked.
#[derive(Debug, Clone, Copy, PartialEq, Eq)]
pub enum HarmBlockThreshold {
    /// Threshold is unspecified.
    HarmBlockThresholdUnspecified,
    /// Content with NEGLIGIBLE will be allowed.
    BlockLowAndAbove,
    /// Content with NEGLIGIBLE and LOW will be allowed.
    BlockMediumAndAbove,
    /// Content with NEGLIGIBLE, LOW, and MEDIUM will be allowed.
    BlockOnlyHigh,
    /// All content will be allowed.
    BlockNone,
}

impl HarmBlockThreshold {
    /// The name of this threshold on the wire.
    pub open spec fn wire_name(self) -> Seq<char> {
        match self {
            HarmBlockThreshold::HarmBlockThresholdUnspecified => "HarmBlockThresholdUnspecified"@,
            HarmBlockThreshold::BlockLowAndAbove => "BlockLowAndAbove"@,
            HarmBlockThreshold::BlockMediumAndAbove => "BlockMediumAndAbove"@,
            HarmBlockThreshold::BlockOnlyHigh => "BlockOnlyHigh"@,
            HarmBlockThreshold::BlockNone => "BlockNone"@,
        }
    }

    /// The name of this threshold on the wire.
    pub fn to_str(&self) -> (name: &'static str)
        ensures
            name@ == self.wire_name(),
    {
        match self {
            HarmBlockThreshold::HarmBlockThresholdUnspecified => "HarmBlockThresholdUnspecified",
            HarmBlockThreshold::BlockLowAndAbove => "BlockLowAndAbove",
            HarmBlockThreshold::BlockMediumAndAbove => "BlockMediumAndAbove",
            HarmBlockThreshold::BlockOnlyHigh => "BlockOnlyHigh",
            HarmBlockThreshold::BlockNone => "BlockNone",
        }
    }
}

/// Safety setting that can be sent as part of request parameters.
#[derive(Debug, Clone, Copy, PartialEq, Eq)]
pub struct SafetySetting {
    pub category: HarmCategory,
    pub threshold: HarmBlockThreshold,
}


/// The JSON form of a safety setting: an object with the wire names of the
/// category and of the threshold.
pub open spec fn setting_json(setting: SafetySetting) -> JsonView {
    JsonView::Object(
        Map::<Seq<char>, JsonView>::empty().insert(
            "category"@,
            JsonView::Text(setting.category.wire_name()),
        ).insert("threshold"@, JsonView::Text(setting.threshold.wire_name())),
    )
}

/// The JSON forms of a list of safety settings, in order.
pub open spec fn settings_json(settings: Seq<SafetySetting>) -> JsonView {
    JsonView::Array(Seq::new(settings.len(), |i: int| setting_json(settings[i])))
}

impl SafetySetting {
    /// The JSON form of this setting.
    pub fn encode(&self) -> (json: Json)
        ensures
            json@ == setting_json(*self),
    {
        let mut members = no_members();
        add_member(&mut members, "category", Json::Text(self.category.to_str().to_owned()));
        add_member(&mut members, "threshold", Json::Text(self.threshold.to_str().to_owned()));
        Json::Object(members)
    }
}

/// The JSON forms of a list of safety settings, in order.
pub fn encode_settings(settings: &Vec<SafetySetting>) -> (json: Json)
    ensures
        json@ == settings_json(settings@),
{
    let mut items: Vec<Json> = Vec::new();
    let mut i: usize = 0;
    while i < settings.len()
        invariant
            i <= settings.len(),
            items@.len() == i,
            forall|k: int| 0 <= k < i ==> items@[k]@ == setting_json(settings@[k]),
        decreases settings.len() - i,
    {
        items.push(settings[i].encode());
        i += 1;
    }
    assert(items_view(items@) =~= settings_json(settings@)->Array_0);
    Json::Array(items)
}

} // verus!
