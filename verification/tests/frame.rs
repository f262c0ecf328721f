use av_core::audiosample::formats::{signed_16, signed_32};
use av_core::audiosample::{ChannelMap, ChannelType, Soniton};
use av_core::common::UserData;
use av_core::frame::{AudioInfo, Frame, FrameError, FrameType, MediaKind, VideoInfo};
use av_core::pixel::formats::{pal8, rgb48, rgb565, rgba, rgba64, yuv420};
use av_core::pixel::{Chromaton, ColorModel, Formaton, TrichromaticEncodingSystem};
use av_core::rational::Rational64;
use av_core::timeinfo::TimeInfo;
use std::sync::Arc;

#[test]
fn tests_test_format_cmp() {
    let mut map = ChannelMap::new();
    map.add_channel(ChannelType::C);

    let sn = Arc::new(signed_16());
    let info1 = AudioInfo::new(42, 48000, map.clone(), sn, None);

    let sn = Arc::new(signed_16());
    let info2 = AudioInfo::new(4242, 48000, map.clone(), sn, None);

    assert!(info1 == info2);

    let mut map = ChannelMap::new();
    map.add_channel(ChannelType::C);
    let sn = Arc::new(signed_16());
    let info1 = AudioInfo::new(42, 48000, map.clone(), sn, None);

    let sn = Arc::new(signed_32());
    let info2 = AudioInfo::new(42, 48000, map.clone(), sn, None);

    assert!(!(info1 == info2));
}

#[test]
fn frame_test_format_cmp() {
    let mut map = ChannelMap::new();
    map.add_channel(ChannelType::C);

    let sn = Arc::new(signed_16());
    let info1 = AudioInfo::new(42, 48000, map.clone(), sn, None);

    let sn = Arc::new(signed_16());
    let info2 = AudioInfo::new(4242, 48000, map.clone(), sn, None);

    assert!(info1 == info2);

    let mut map = ChannelMap::new();
    map.add_channel(ChannelType::C);
    let sn = Arc::new(signed_16());
    let info1 = AudioInfo::new(42, 48000, map.clone(), sn, None);

    let sn = Arc::new(signed_32());
    let info2 = AudioInfo::new(42, 48000, map.clone(), sn, None);

    assert!(!(info1 == info2));
}

#[test]
fn tests_test_video_format_cmp() {
    let yuv420: Formaton = yuv420();
    let fm = Arc::new(yuv420);
    let info1 = VideoInfo::new(42, 42, false, FrameType::I, fm);

    let yuv420: Formaton = self::yuv420();
    let fm = Arc::new(yuv420);
    let info2 = VideoInfo::new(42, 42, false, FrameType::P, fm);

    assert!(info1 == info2);

    let yuv420: Formaton = self::yuv420();
    let fm = Arc::new(yuv420);
    let info1 = VideoInfo::new(42, 42, false, FrameType::I, fm);

    let rgb565: Formaton = rgb565();
    let fm = Arc::new(rgb565);
    let info2 = VideoInfo::new(42, 42, false, FrameType::I, fm);

    assert!(!(info1 == info2));
}

#[test]
fn pixel_test_video_format_cmp() {
    let fm = Arc::new(yuv420());
    let info1 = VideoInfo::new(42, 42, false, FrameType::I, fm);

    let fm = Arc::new(yuv420());
    let info2 = VideoInfo::new(42, 42, false, FrameType::P, fm);

    assert!(info1 == info2);

    let fm = Arc::new(yuv420());
    let info1 = VideoInfo::new(42, 42, false, FrameType::I, fm);

    let fm = Arc::new(rgb565());
    let info2 = VideoInfo::new(42, 42, false, FrameType::I, fm);

    assert!(!(info1 == info2));
}

#[test]
#[should_panic]
fn tests_test_frame_copy_from_slice() {
    let fm = Arc::new(yuv420());
    let video_info = VideoInfo::new(42, 42, false, FrameType::I, fm);

    let mut frame = Frame::new_default_frame(MediaKind::Video(video_info), None);

    frame
        .copy_from_slice(&vec![vec![0].as_slice(); 2], &vec![40; 2])
        .unwrap();
}

#[test]
#[should_panic]
fn pixel_test_frame_copy_from_slice() {
    let fm = Arc::new(yuv420());
    let video_info = VideoInfo::new(42, 42, false, FrameType::I, fm);

    let mut frame = Frame::new_default_frame(MediaKind::Video(video_info), None);

    frame
        .copy_from_slice(&vec![vec![0].as_slice(); 2], &vec![40; 2])
        .unwrap();
}

#[test]
fn tests_comparison() {
    let rcf = Arc::new(yuv420());
    let cf = &yuv420().clone();

    if *cf != yuv420() {
        panic!("cf");
    }

    if *rcf != yuv420() {
        panic!("rcf");
    }
}

#[test]
fn pixel_comparison() {
    let rcf = Arc::new(yuv420());
    let cf = &yuv420().clone();

    if *cf != yuv420() {
        panic!("cf");
    }

    if *rcf != yuv420() {
        panic!("rcf");
    }
}

#[test]
fn copy_with_wrong_count_is_a_shape_mismatch() {
    let video_info = VideoInfo::new(42, 42, false, FrameType::I, Arc::new(yuv420()));
    let mut frame = Frame::new_default_frame(MediaKind::Video(video_info), None);
    assert_eq!(frame.count(), 3);

    let one = [0u8];
    assert_eq!(
        frame.copy_from_slice(&[&one[..], &one[..]], &[40, 40]),
        Err(FrameError::ShapeMismatch)
    );
    assert_eq!(
        frame.copy_from_slice(&[&one[..], &one[..], &one[..]], &[40, 40]),
        Err(FrameError::ShapeMismatch)
    );
    assert_eq!(
        frame.copy_from_slice(&[&one[..], &one[..], &one[..], &one[..]], &[1, 1, 1, 1]),
        Err(FrameError::ShapeMismatch)
    );
    for i in 0..3 {
        assert_eq!(frame.plane(i), Some(&[][..]));
        assert_eq!(frame.linesize(i), Some(0));
    }
}

#[test]
fn copy_with_right_count_fills_each_plane() {
    let video_info = VideoInfo::new(4, 2, false, FrameType::I, Arc::new(yuv420()));
    let mut frame = Frame::new_default_frame(MediaKind::Video(video_info), None);

    let luma: Vec<u8> = (0..16).collect();
    let cb = [100u8, 101, 0, 0];
    let cr = [200u8, 201, 0, 0];
    assert_eq!(
        frame.copy_from_slice(&[&luma[..], &cb[..], &cr[..]], &[8, 4, 4]),
        Ok(())
    );
    assert_eq!(frame.count(), 3);
    assert_eq!(frame.plane(0), Some(&luma[..]));
    assert_eq!(frame.plane(1), Some(&cb[..]));
    assert_eq!(frame.plane(2), Some(&cr[..]));
    assert_eq!(frame.linesize(0), Some(8));
    assert_eq!(frame.linesize(1), Some(4));
    assert_eq!(frame.linesize(2), Some(4));
    assert_eq!(frame.plane(3), None);
    assert_eq!(frame.linesize(3), None);
}

#[test]
fn audio_plane_count_follows_layout() {
    let mut map = ChannelMap::new();
    map.add_channels(&[ChannelType::L, ChannelType::R]);

    let interleaved = AudioInfo::new(0, 44100, map.clone(), Arc::new(signed_16()), None);
    let kind = MediaKind::Audio(interleaved);
    assert_eq!(kind.get_plane_count(), 1);
    let mut frame = Frame::new_default_frame(kind, None);
    let samples = [1u8, 2, 3, 4];
    assert_eq!(frame.copy_from_slice(&[&samples[..]], &[4]), Ok(()));
    assert_eq!(frame.plane(0), Some(&samples[..]));

    let planar = Soniton::new(16, false, false, true, false, true);
    let info = AudioInfo::new(0, 44100, map, Arc::new(planar), None);
    let kind = MediaKind::Audio(info);
    assert_eq!(kind.get_plane_count(), 2);
    let mut frame = Frame::new_default_frame(kind, None);
    assert_eq!(
        frame.copy_from_slice(&[&samples[..]], &[4]),
        Err(FrameError::ShapeMismatch)
    );
    assert_eq!(
        frame.copy_from_slice(&[&samples[..2], &samples[2..]], &[2, 2]),
        Ok(())
    );
    assert_eq!(frame.plane(1), Some(&samples[2..]));
}

#[test]
fn default_frame_keeps_kind_and_time() {
    let info = VideoInfo::new(1, 1, true, FrameType::B, Arc::new(rgba()));
    let t = TimeInfo {
        pts: Rational64::new(3, 1),
        duration: None,
        timebase: Rational64::new(1, 25),
    };
    let frame = Frame::new_default_frame(MediaKind::Video(info.clone()), Some(t));
    assert_eq!(frame.get_kind(), &MediaKind::Video(info));
    assert_eq!(frame.get_time(), t);
    assert_eq!(frame.count(), 4);

    let info = VideoInfo::new(1, 1, true, FrameType::B, Arc::new(rgba()));
    let frame = Frame::new_default_frame(MediaKind::Video(info), None);
    assert_eq!(frame.get_time(), TimeInfo::default());
}

#[test]
fn video_equality_looks_at_each_format_part() {
    let base = VideoInfo::new(42, 42, false, FrameType::I, Arc::new(yuv420()));
    assert!(base != VideoInfo::new(43, 42, false, FrameType::I, Arc::new(yuv420())));
    assert!(base != VideoInfo::new(42, 43, false, FrameType::I, Arc::new(yuv420())));
    assert!(base != VideoInfo::new(42, 42, true, FrameType::I, Arc::new(yuv420())));
    assert!(base == VideoInfo::new(42, 42, false, FrameType::OTHER, Arc::new(yuv420())));
}

#[test]
fn audio_equality_looks_at_each_format_part() {
    let mut mono = ChannelMap::new();
    mono.add_channel(ChannelType::C);
    let mut stereo = ChannelMap::new();
    stereo.add_channels(&[ChannelType::L, ChannelType::R]);
    let mut swapped = ChannelMap::new();
    swapped.add_channels(&[ChannelType::R, ChannelType::L]);

    let base = AudioInfo::new(1, 48000, stereo.clone(), Arc::new(signed_16()), None);
    assert!(base == AudioInfo::new(2, 48000, stereo.clone(), Arc::new(signed_16()), Some(7)));
    assert!(base != AudioInfo::new(1, 44100, stereo.clone(), Arc::new(signed_16()), None));
    assert!(base != AudioInfo::new(1, 48000, mono, Arc::new(signed_16()), None));
    assert!(base != AudioInfo::new(1, 48000, swapped, Arc::new(signed_16()), None));
}

#[test]
fn channel_map_holds_each_channel_once() {
    let mut map = ChannelMap::new();
    assert!(map.is_empty());
    assert!(map.add_channel(ChannelType::L));
    assert!(map.add_channel(ChannelType::R));
    assert!(!map.add_channel(ChannelType::L));
    assert_eq!(map.len(), 2);
    assert_eq!(map.get_channel(0), Some(ChannelType::L));
    assert_eq!(map.get_channel(1), Some(ChannelType::R));
    assert_eq!(map.get_channel(2), None);
    assert_eq!(map.find_channel_id(ChannelType::R), Some(1));
    assert_eq!(map.find_channel_id(ChannelType::C), None);

    map.add_channels(&[ChannelType::R, ChannelType::C, ChannelType::C, ChannelType::LFE]);
    assert_eq!(map.len(), 4);
    assert_eq!(map.get_channel(2), Some(ChannelType::C));
    assert_eq!(map.get_channel(3), Some(ChannelType::LFE));
}

#[test]
fn well_known_pixel_formats() {
    let f = yuv420();
    assert_eq!(f.get_num_comp(), 3);
    assert_eq!(f.get_chromaton(0), Some(Chromaton::yuv8(0, 0, 0)));
    assert_eq!(f.get_chromaton(1), Some(Chromaton::yuv8(1, 1, 1)));
    assert_eq!(f.get_chromaton(2), Some(Chromaton::yuv8(1, 1, 2)));
    assert_eq!(f.get_chromaton(3), None);
    assert_eq!(f.get_chromaton(5), None);
    assert_eq!(f.elem_size, 0);

    let f = rgb565();
    assert_eq!(f.get_chromaton(1), Some(Chromaton::new(0, 0, true, 6, 5, 0, 2)));
    assert_eq!(f.elem_size, 2);
    assert_eq!(f.model, ColorModel::Trichromatic(TrichromaticEncodingSystem::RGB));

    let f = pal8();
    assert!(f.palette);
    assert_eq!(f.get_chromaton(2), Some(Chromaton::pal8(2)));
    assert_eq!(Chromaton::pal8(2).next_elem, 3);

    let f = rgba();
    assert!(f.alpha);
    assert_eq!(f.get_num_comp(), 4);
    assert_eq!(f.get_chromaton(0), Some(Chromaton::packrgb(8, 0, 3, 4)));

    let f = rgb48();
    assert_eq!(f.elem_size, 6);
    assert_eq!(f.get_chromaton(0).map(|c| c.depth), Some(16));

    let f = rgba64();
    assert_eq!(f.elem_size, 8);
    assert_eq!(f.get_chromaton(3), Some(Chromaton::packrgb(16, 0, 0, 8)));
}

#[test]
fn formaton_new_takes_up_to_five_components() {
    let c = Chromaton::new(0, 0, false, 10, 0, 0, 2);
    let model = ColorModel::Trichromatic(TrichromaticEncodingSystem::XYZ);
    let f = Formaton::new(model, &[c, c], 2, true, false, false).unwrap();
    assert_eq!(f.get_num_comp(), 2);
    assert_eq!(f.get_chromaton(1), Some(c));
    assert_eq!(f.get_chromaton(2), None);
    assert!(f.be);
    assert!(Formaton::new(model, &[c; 5], 0, false, false, false).is_some());
    assert!(Formaton::new(model, &[c; 6], 0, false, false, false).is_none());
    assert!(f != yuv420());
    assert_eq!((c.h_ss, c.v_ss), (0, 0));
    assert!(!c.packed);
}

#[test]
fn frame_carries_private_data() {
    let info = VideoInfo::new(1, 1, false, FrameType::I, Arc::new(pal8()));
    let mut frame = Frame::new_default_frame(MediaKind::Video(info), None);
    assert!(frame.user_private().is_none());
    assert!(frame.set_user_private(Some(UserData::Text("mine".to_owned()))).is_none());
    assert!(matches!(frame.user_private(), Some(UserData::Text(t)) if t == "mine"));
    let one = [1u8];
    assert_eq!(
        frame.copy_from_slice(&[&one[..], &one[..], &one[..]], &[1, 1, 1]),
        Ok(())
    );
    assert!(matches!(
        frame.set_user_private(None),
        Some(UserData::Text(t)) if t == "mine"
    ));
    assert!(frame.user_private().is_none());
    assert_eq!(frame.count(), 3);
}
