//! Backend identifiers (`PrismBackendId`).

use vstd::prelude::*;

use crate::backend_code as b;
use crate::text::{hex_u64, push_hex_u64};

verus! {

/// A backend identifier (`PrismBackendId`), a stable 64-bit tag.
///
/// Known backends are listed by [`BackendId::all`] and their raw tags by
/// [`crate::backend_code`]; unknown/custom ids (e.g. those minted by a
/// registry builder) round-trip losslessly through the [`u64`] value.
#[derive(Debug, Clone, Copy, PartialEq, Eq, PartialOrd, Ord, Hash, Structural)]
pub struct BackendId(pub u64);

/// The well-known human-readable name of each built-in backend id.
pub open spec fn well_known_name_of(id: u64) -> Option<Seq<char>> {
    match id {
        b::SAPI => Some("SAPI"@),
        b::AV_SPEECH => Some("AVSpeech"@),
        b::VOICE_OVER => Some("VoiceOver"@),
        b::SPEECH_DISPATCHER => Some("Speech Dispatcher"@),
        b::NVDA => Some("NVDA"@),
        b::JAWS => Some("JAWS"@),
        b::ONE_CORE => Some("OneCore"@),
        b::ORCA => Some("Orca"@),
        b::ANDROID_SCREEN_READER => Some("Android Screen Reader"@),
        b::ANDROID_TTS => Some("Android TTS"@),
        b::WEB_SPEECH => Some("Web Speech"@),
        b::UIA => Some("UIA"@),
        b::ZDSR => Some("ZDSR"@),
        b::ZOOM_TEXT => Some("ZoomText"@),
        b::BOY_PC_READER => Some("BoyPCReader"@),
        b::PC_TALKER => Some("PC-Talker"@),
        b::SENSE_READER => Some("SenseReader"@),
        b::SYSTEM_ACCESS => Some("System Access"@),
        b::WINDOW_EYES => Some("Window-Eyes"@),
        b::SPIEL => Some("Spiel"@),
        _ => None,
    }
}

impl BackendId {
    /// The built-in ids, in header declaration order.
    pub open spec fn builtin_ids() -> Seq<u64> {
        seq![
        b::SAPI,
        b::AV_SPEECH,
        b::VOICE_OVER,
        b::SPEECH_DISPATCHER,
        b::NVDA,
        b::JAWS,
        b::ONE_CORE,
        b::ORCA,
        b::ANDROID_SCREEN_READER,
        b::ANDROID_TTS,
        b::WEB_SPEECH,
        b::UIA,
        b::ZDSR,
        b::ZOOM_TEXT,
        b::BOY_PC_READER,
        b::PC_TALKER,
        b::SENSE_READER,
        b::SYSTEM_ACCESS,
        b::WINDOW_EYES,
        b::SPIEL,
        ]
    }

    /// Every built-in backend id, in header declaration order.
    pub fn all() -> (r: [BackendId; 20])
        ensures
            r@.len() == 20,
            forall|i: int| 0 <= i < 20 ==> r@[i].0 == Self::builtin_ids()[i],
    {
        [
            BackendId(b::SAPI),
            BackendId(b::AV_SPEECH),
            BackendId(b::VOICE_OVER),
            BackendId(b::SPEECH_DISPATCHER),
            BackendId(b::NVDA),
            BackendId(b::JAWS),
            BackendId(b::ONE_CORE),
            BackendId(b::ORCA),
            BackendId(b::ANDROID_SCREEN_READER),
            BackendId(b::ANDROID_TTS),
            BackendId(b::WEB_SPEECH),
            BackendId(b::UIA),
            BackendId(b::ZDSR),
            BackendId(b::ZOOM_TEXT),
            BackendId(b::BOY_PC_READER),
            BackendId(b::PC_TALKER),
            BackendId(b::SENSE_READER),
            BackendId(b::SYSTEM_ACCESS),
            BackendId(b::WINDOW_EYES),
            BackendId(b::SPIEL),
        ]
    }

    /// The raw 64-bit id.
    pub fn get(self) -> (r: u64)
        ensures
            r == self.0,
    {
        self.0
    }

    /// Whether this is a real id (i.e. not `PRISM_BACKEND_INVALID`).
    pub fn is_valid(self) -> (r: bool)
        ensures
            r == (self.0 != b::INVALID),
    {
        self.0 != b::INVALID
    }

    /// The well-known human-readable name for this id, if it is a built-in.
    pub fn well_known_name(self) -> (r: Option<&'static str>)
        ensures
            match r {
                Some(name) => well_known_name_of(self.0) == Some(name@),
                None => well_known_name_of(self.0) is None,
            },
    {
        Some(match self.0 {
        b::SAPI => "SAPI",
        b::AV_SPEECH => "AVSpeech",
        b::VOICE_OVER => "VoiceOver",
        b::SPEECH_DISPATCHER => "Speech Dispatcher",
        b::NVDA => "NVDA",
        b::JAWS => "JAWS",
        b::ONE_CORE => "OneCore",
        b::ORCA => "Orca",
        b::ANDROID_SCREEN_READER => "Android Screen Reader",
        b::ANDROID_TTS => "Android TTS",
        b::WEB_SPEECH => "Web Speech",
        b::UIA => "UIA",
        b::ZDSR => "ZDSR",
        b::ZOOM_TEXT => "ZoomText",
        b::BOY_PC_READER => "BoyPCReader",
        b::PC_TALKER => "PC-Talker",
        b::SENSE_READER => "SenseReader",
        b::SYSTEM_ACCESS => "System Access",
        b::WINDOW_EYES => "Window-Eyes",
        b::SPIEL => "Spiel",
            _ => return None,
        })
    }

    /// The text this id displays as: its well-known name, `<invalid>` for the
    /// sentinel, or `<custom 0x...>` with the id in sixteen hexadecimal digits.
    pub open spec fn display_of(self) -> Seq<char> {
        match well_known_name_of(self.0) {
            Some(name) => name,
            None => if self.0 == 0 {
                "<invalid>"@
            } else {
                "<custom "@ + hex_u64(self.0) + ">"@
            },
        }
    }

    /// The display text: the well-known name, `<invalid>`, or
    /// `<custom 0x...>` for any other id.
    pub fn to_string(&self) -> (r: String)
        ensures
            r@ == self.display_of(),
    {
        match self.well_known_name() {
            Some(name) => String::from_str(name),
            None => if !self.is_valid() {
                String::from_str("<invalid>")
            } else {
                let mut out = String::from_str("<custom ");
                push_hex_u64(&mut out, self.0);
                out.append(">");
                out
            },
        }
    }
}

impl From<u64> for BackendId {
    fn from(v: u64) -> (r: BackendId)
        ensures
            r.0 == v,
    {
        BackendId(v)
    }
}

impl vstd::std_specs::convert::FromSpecImpl<u64> for BackendId {
    open spec fn obeys_from_spec() -> bool {
        true
    }

    open spec fn from_spec(v: u64) -> BackendId {
        BackendId(v)
    }
}

impl From<BackendId> for u64 {
    fn from(v: BackendId) -> (r: u64)
        ensures
            r == v.0,
    {
        v.0
    }
}

impl vstd::std_specs::convert::FromSpecImpl<BackendId> for u64 {
    open spec fn obeys_from_spec() -> bool {
        true
    }

    open spec fn from_spec(v: BackendId) -> u64 {
        v.0
    }
}

/// The built-in backends as the C header lists them, in declaration order:
/// each `PRISM_BACKEND_*` tag with the name the header gives it.
pub open spec fn header_backends() -> Seq<(u64, Seq<char>)> {
    seq![
        (0x1D6D_F724_22CE_EE66u64, "SAPI"@),
        (0x28E3_4295_7780_5C24u64, "AVSpeech"@),
        (0xCB48_9796_1A75_4BCBu64, "VoiceOver"@),
        (0xE3D6_F895_D949_EBFEu64, "Speech Dispatcher"@),
        (0x89CC_19C5_C4AC_1A56u64, "NVDA"@),
        (0xAC3D_60E9_BD84_B53Eu64, "JAWS"@),
        (0x6797_D32F_0D99_4CB4u64, "OneCore"@),
        (0x10AA_1FC0_5A17_F96Cu64, "Orca"@),
        (0xD199_C175_AEEC_494Bu64, "Android Screen Reader"@),
        (0xBC17_5831_BFE4_E5CCu64, "Android TTS"@),
        (0x3572_538D_44D4_4A8Fu64, "Web Speech"@),
        (0x6238_F019_DB67_8F8Eu64, "UIA"@),
        (0x3D93_C56C_9E7F_2A2Eu64, "ZDSR"@),
        (0xAE43_9D62_DC7B_1479u64, "ZoomText"@),
        (0x285A_BA1C_16F3_300Fu64, "BoyPCReader"@),
        (0x344B_9519_62E3_B835u64, "PC-Talker"@),
        (0xED47_6089_0B55_C2F2u64, "SenseReader"@),
        (0x8380_F2A3_7B2C_3EB6u64, "System Access"@),
        (0x9120_D899_0878_5C13u64, "Window-Eyes"@),
        (0x478B_44F1_4AD3_D89Cu64, "Spiel"@),
    ]
}

/// Each built-in tag has the header's name, and `all()` lists the tags in
/// header order: for every position `i`, the `i`-th built-in id is the
/// header's `i`-th tag and its well-known name is the header's `i`-th name.
pub proof fn lemma_names_match_header()
    ensures
        BackendId::builtin_ids().len() == header_backends().len(),
        forall|i: int|
            #![trigger header_backends()[i]]
            0 <= i < header_backends().len() ==> BackendId::builtin_ids()[i]
                == header_backends()[i].0 && well_known_name_of(header_backends()[i].0) == Some(
                header_backends()[i].1,
            ),
{
    let t = header_backends();
    let ids = BackendId::builtin_ids();
    assert forall|i: int| 0 <= i < t.len() implies ids[i] == t[i].0 && well_known_name_of(t[i].0)
        == Some(t[i].1) by {
        if i == 0 {
            assert(ids[0] == t[0].0 && well_known_name_of(t[0].0) == Some(t[0].1));
        } else if i == 1 {
            assert(ids[1] == t[1].0 && well_known_name_of(t[1].0) == Some(t[1].1));
        } else if i == 2 {
            assert(ids[2] == t[2].0 && well_known_name_of(t[2].0) == Some(t[2].1));
        } else if i == 3 {
            assert(ids[3] == t[3].0 && well_known_name_of(t[3].0) == Some(t[3].1));
        } else if i == 4 {
            assert(ids[4] == t[4].0 && well_known_name_of(t[4].0) == Some(t[4].1));
        } else if i == 5 {
            assert(ids[5] == t[5].0 && well_known_name_of(t[5].0) == Some(t[5].1));
        } else if i == 6 {
            assert(ids[6] == t[6].0 && well_known_name_of(t[6].0) == Some(t[6].1));
        } else if i == 7 {
            assert(ids[7] == t[7].0 && well_known_name_of(t[7].0) == Some(t[7].1));
        } else if i == 8 {
            assert(ids[8] == t[8].0 && well_known_name_of(t[8].0) == Some(t[8].1));
        } else if i == 9 {
            assert(ids[9] == t[9].0 && well_known_name_of(t[9].0) == Some(t[9].1));
        } else if i == 10 {
            assert(ids[10] == t[10].0 && well_known_name_of(t[10].0) == Some(t[10].1));
        } else if i == 11 {
            assert(ids[11] == t[11].0 && well_known_name_of(t[11].0) == Some(t[11].1));
        } else if i == 12 {
            assert(ids[12] == t[12].0 && well_known_name_of(t[12].0) == Some(t[12].1));
        } else if i == 13 {
            assert(ids[13] == t[13].0 && well_known_name_of(t[13].0) == Some(t[13].1));
        } else if i == 14 {
            assert(ids[14] == t[14].0 && well_known_name_of(t[14].0) == Some(t[14].1));
        } else if i == 15 {
            assert(ids[15] == t[15].0 && well_known_name_of(t[15].0) == Some(t[15].1));
        } else if i == 16 {
            assert(ids[16] == t[16].0 && well_known_name_of(t[16].0) == Some(t[16].1));
        } else if i == 17 {
            assert(ids[17] == t[17].0 && well_known_name_of(t[17].0) == Some(t[17].1));
        } else if i == 18 {
            assert(ids[18] == t[18].0 && well_known_name_of(t[18].0) == Some(t[18].1));
        } else {
            assert(ids[19] == t[19].0 && well_known_name_of(t[19].0) == Some(t[19].1));
        }
    }
}

/// An id without a well-known name displays as `<invalid>` when it is the
/// zero sentinel, and otherwise as `<custom 0x` followed by sixteen
/// hexadecimal digits that read back as the id, then `>`.
pub proof fn lemma_custom_display_reads_back(id: BackendId)
    requires
        well_known_name_of(id.0) is None,
    ensures
        id.0 == b::INVALID ==> id.display_of() == seq!['<', 'i', 'n', 'v', 'a', 'l', 'i', 'd', '>'],
        id.0 != b::INVALID ==> ({
            let d = id.display_of();
            &&& d.len() == 27
            &&& d.subrange(0, 10) == seq!['<', 'c', 'u', 's', 't', 'o', 'm', ' ', '0', 'x']
            &&& d[26] == '>'
            &&& crate::text::all_digits_below(d.subrange(10, 26), 16)
            &&& crate::text::value_in_base(d.subrange(10, 26), 16) == id.0
        }),
{
    reveal_strlit("<invalid>");
    reveal_strlit("<custom ");
    reveal_strlit(">");
    if id.0 == b::INVALID {
        assert(id.display_of() =~= seq!['<', 'i', 'n', 'v', 'a', 'l', 'i', 'd', '>']);
    } else {
        let d = id.display_of();
        crate::text::lemma_hex_u64_reads_back(id.0);
        crate::text::lemma_hex_reads_back(id.0 as nat, 16);
        assert(d =~= "<custom "@ + hex_u64(id.0) + ">"@);
        assert(d.subrange(0, 10) =~= seq!['<', 'c', 'u', 's', 't', 'o', 'm', ' ', '0', 'x']);
        assert(d.subrange(10, 26) =~= crate::text::hex_digits(id.0 as nat, 16));
    }
}

/// The built-in ids are twenty distinct, valid tags, and every one of them has
/// a well-known name.
pub proof fn lemma_builtin_ids_distinct_valid_named()
    ensures
        BackendId::builtin_ids().len() == 20,
        forall|i: int, j: int|
            0 <= i < j < 20 ==> BackendId::builtin_ids()[i] != BackendId::builtin_ids()[j],
        forall|i: int|
            #![trigger BackendId::builtin_ids()[i]]
            0 <= i < 20 ==> BackendId::builtin_ids()[i] != b::INVALID
                && well_known_name_of(BackendId::builtin_ids()[i]) is Some,
{
}

/// An id has a well-known name exactly when it is one of the built-in ids.
pub proof fn lemma_named_iff_builtin(id: u64)
    ensures
        well_known_name_of(id) is Some <==> BackendId::builtin_ids().contains(id),
{
    let ids = BackendId::builtin_ids();
    if well_known_name_of(id) is Some {
        if id == b::SAPI { assert(ids[0] == id); }
        else if id == b::AV_SPEECH { assert(ids[1] == id); }
        else if id == b::VOICE_OVER { assert(ids[2] == id); }
        else if id == b::SPEECH_DISPATCHER { assert(ids[3] == id); }
        else if id == b::NVDA { assert(ids[4] == id); }
        else if id == b::JAWS { assert(ids[5] == id); }
        else if id == b::ONE_CORE { assert(ids[6] == id); }
        else if id == b::ORCA { assert(ids[7] == id); }
        else if id == b::ANDROID_SCREEN_READER { assert(ids[8] == id); }
        else if id == b::ANDROID_TTS { assert(ids[9] == id); }
        else if id == b::WEB_SPEECH { assert(ids[10] == id); }
        else if id == b::UIA { assert(ids[11] == id); }
        else if id == b::ZDSR { assert(ids[12] == id); }
        else if id == b::ZOOM_TEXT { assert(ids[13] == id); }
        else if id == b::BOY_PC_READER { assert(ids[14] == id); }
        else if id == b::PC_TALKER { assert(ids[15] == id); }
        else if id == b::SENSE_READER { assert(ids[16] == id); }
        else if id == b::SYSTEM_ACCESS { assert(ids[17] == id); }
        else if id == b::WINDOW_EYES { assert(ids[18] == id); }
        else { assert(ids[19] == id); }
    }
}

/// Converting a raw id to a [`BackendId`] and back gives the raw id again, and
/// the other way round: `u64::from(BackendId::from(v)) == v` and
/// `BackendId::from(u64::from(id)) == id`.
pub proof fn lemma_u64_round_trip(v: u64, id: BackendId)
    ensures
        <u64 as vstd::std_specs::convert::FromSpec<BackendId>>::from_spec(
            <BackendId as vstd::std_specs::convert::FromSpec<u64>>::from_spec(v),
        ) == v,
        <BackendId as vstd::std_specs::convert::FromSpec<u64>>::from_spec(
            <u64 as vstd::std_specs::convert::FromSpec<BackendId>>::from_spec(id),
        ) == id,
{
}

} // verus!
