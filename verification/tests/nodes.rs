use node_sound_core::nodes::signum_node::Signum;
use node_sound_core::nodes::split_channels_node::SplitChannels;
use node_sound_core::nodes::switch_node::Switch;
use node_sound_core::nodes::unison_node::{MixVec, UnisonVoice};
use node_sound_core::sounds::abs::Abs;
use node_sound_core::sounds::automated_clamp::AutomatedClamp;
use node_sound_core::sounds::automated_mod_raw::AutomatedModRaw;
use node_sound_core::sounds::automated_translate::AutomatedTranslateWave;
use node_sound_core::sounds::clamp_to_note::ClampToNote;
use node_sound_core::sounds::daw_input::DawInputChannel;
use node_sound_core::sounds::flip::Flip;

#[test]
fn node_constructors_keep_their_parts() {
    assert_eq!(Signum::new(4).source, 4);
    let s = SplitChannels::new("src", 1);
    assert_eq!((s.source, s.channel), ("src", 1));
    let w = Switch::new(1, 2, 3);
    assert_eq!((w.source1, w.source2, w.switch), (1, 2, 3));
    let c = AutomatedClamp::new(1, 2, 3);
    assert_eq!((c.source, c.min, c.max), (1, 2, 3));
    let m = AutomatedModRaw::new(1, 2);
    assert_eq!((m.source, m.mod_by), (1, 2));
    let t = AutomatedTranslateWave::new(1, 2, 3, 4, 5);
    assert_eq!((t.source, t.start_min, t.start_max, t.end_min, t.end_max), (1, 2, 3, 4, 5));
    assert_eq!(ClampToNote::new(9).source, 9);
    assert_eq!(Flip::new(8).source, 8);
    assert_eq!(Abs::new(7).source, 7);
    let mix = MixVec::new(vec![1, 2, 3]);
    assert_eq!(mix.vec, vec![1, 2, 3]);
    let u = UnisonVoice { source: mix };
    assert_eq!(u.source.vec.len(), 3);
    let _ = DawInputChannel::new();
}
