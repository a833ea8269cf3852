use aris_player::frames::{check_frame, FrameError, FrameStore};

fn image(pixels: &[u8], width: u32, height: u32) -> Vec<u8> {
    qoi::encode_to_vec(pixels, width, height).unwrap()
}

#[test]
fn load_decodes_every_frame_in_order() {
    let a = [1u8, 2, 3, 4, 5, 6];
    let b = [9u8, 9, 9, 0, 0, 0];
    let assets = vec![image(&a, 2, 1), image(&b, 1, 2)];
    let store = FrameStore::load(&assets, 6).unwrap();
    assert_eq!(store.len(), 2);
    assert_eq!(store.frame_len(), 6);
    let mut target = [0u8; 6];
    store.copy_frame_into(0, &mut target);
    assert_eq!(target, a);
    store.copy_frame_into(1, &mut target);
    assert_eq!(target, b);
}

#[test]
fn load_of_no_assets_fails() {
    assert_eq!(FrameStore::load(&Vec::new(), 6).err(), Some(FrameError::NoFrames));
}

#[test]
fn load_reports_first_undecodable_asset() {
    let good = image(&[1u8, 2, 3], 1, 1);
    let assets = vec![good.clone(), vec![1, 2, 3, 4], good];
    assert_eq!(FrameStore::load(&assets, 3).err(), Some(FrameError::Undecodable(1)));
}

#[test]
fn load_reports_frame_of_wrong_size() {
    let small = image(&[1u8, 2, 3], 1, 1);
    let big = image(&[1u8, 2, 3, 4, 5, 6], 2, 1);
    let assets = vec![small, big];
    assert_eq!(FrameStore::load(&assets, 6).err(), Some(FrameError::WrongSize(0)));
}

#[test]
fn check_frame_outcomes() {
    assert_eq!(check_frame(3, None, 4), Err(FrameError::Undecodable(3)));
    assert_eq!(check_frame(2, Some(vec![1, 2]), 4), Err(FrameError::WrongSize(2)));
    assert_eq!(check_frame(0, Some(vec![1, 2, 3, 4]), 4), Ok(vec![1, 2, 3, 4]));
}
