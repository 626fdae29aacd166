use std::cell::RefCell;

use multidraw::buffer::{BufferCreationError, BufferMode, BufferType, BufferView, Facade};
use multidraw::command::{DrawCommandIndices, DrawCommandNoIndices};
use multidraw::multidraw::{DrawCommandsIndicesBuffer, DrawCommandsNoIndicesBuffer};

/// A device that keeps a list of what it was asked and gives one answer.
struct Device {
    answer: Result<(), BufferCreationError>,
    asked: RefCell<Vec<(BufferType, usize, BufferMode)>>,
}

impl Device {
    fn granting() -> Device {
        Device { answer: Ok(()), asked: RefCell::new(Vec::new()) }
    }

    fn refusing(why: BufferCreationError) -> Device {
        Device { answer: Err(why), asked: RefCell::new(Vec::new()) }
    }
}

impl Facade for Device {
    fn reserve(
        &self,
        ty: BufferType,
        size: usize,
        mode: BufferMode,
    ) -> Result<(), BufferCreationError> {
        self.asked.borrow_mut().push((ty, size, mode));
        self.answer
    }
}

const COUNTS: [usize; 5] = [0, 1, 3, 64, 1000];

#[test]
fn buffer_without_indices_has_the_count_asked_for() {
    for &count in &COUNTS {
        let device = Device::granting();
        let made = [
            DrawCommandsNoIndicesBuffer::empty(&device, count).unwrap(),
            DrawCommandsNoIndicesBuffer::empty_dynamic(&device, count).unwrap(),
            DrawCommandsNoIndicesBuffer::empty_persistent(&device, count).unwrap(),
            DrawCommandsNoIndicesBuffer::empty_immutable(&device, count).unwrap(),
        ];
        let modes = [
            BufferMode::Default,
            BufferMode::Dynamic,
            BufferMode::Persistent,
            BufferMode::Immutable,
        ];
        for (buffer, &mode) in made.iter().zip(&modes) {
            assert_eq!(buffer.len(), count);
            assert_eq!(buffer.get_size(), 16 * count);
            assert_eq!(buffer.get_mode(), mode);
            assert_eq!(buffer.get_buffer_type(), BufferType::DrawIndirectBuffer);
            assert_eq!(buffer.is_persistent(), mode == BufferMode::Persistent);
            assert!(buffer.read().iter().all(|record| record.draws_nothing()));
            assert_eq!(buffer.to_bytes(), vec![0u8; 16 * count]);
        }
        let asked: Vec<_> =
            modes.iter().map(|&mode| (BufferType::DrawIndirectBuffer, 16 * count, mode)).collect();
        assert_eq!(*device.asked.borrow(), asked);
    }
}

#[test]
fn buffer_with_indices_has_the_count_asked_for() {
    for &count in &COUNTS {
        let device = Device::granting();
        let made = [
            DrawCommandsIndicesBuffer::empty(&device, count).unwrap(),
            DrawCommandsIndicesBuffer::empty_dynamic(&device, count).unwrap(),
            DrawCommandsIndicesBuffer::empty_persistent(&device, count).unwrap(),
            DrawCommandsIndicesBuffer::empty_immutable(&device, count).unwrap(),
        ];
        let modes = [
            BufferMode::Default,
            BufferMode::Dynamic,
            BufferMode::Persistent,
            BufferMode::Immutable,
        ];
        for (buffer, &mode) in made.iter().zip(&modes) {
            assert_eq!(buffer.len(), count);
            assert_eq!(buffer.get_size(), 20 * count);
            assert_eq!(buffer.get_mode(), mode);
            assert_eq!(buffer.get_buffer_type(), BufferType::DrawIndirectBuffer);
            assert_eq!(buffer.is_persistent(), mode == BufferMode::Persistent);
            assert!(buffer.read().iter().all(|record| record.draws_nothing()));
            assert_eq!(buffer.to_bytes(), vec![0u8; 20 * count]);
        }
        let asked: Vec<_> =
            modes.iter().map(|&mode| (BufferType::DrawIndirectBuffer, 20 * count, mode)).collect();
        assert_eq!(*device.asked.borrow(), asked);
    }
}

#[test]
fn refusal_of_the_device_is_reported_without_indices() {
    for why in [BufferCreationError::OutOfMemory, BufferCreationError::BufferTypeNotSupported] {
        let device = Device::refusing(why);
        assert_eq!(DrawCommandsNoIndicesBuffer::empty(&device, 3).err(), Some(why));
        assert_eq!(DrawCommandsNoIndicesBuffer::empty_dynamic(&device, 3).err(), Some(why));
        assert_eq!(DrawCommandsNoIndicesBuffer::empty_persistent(&device, 3).err(), Some(why));
        assert_eq!(DrawCommandsNoIndicesBuffer::empty_immutable(&device, 3).err(), Some(why));
        assert_eq!(device.asked.borrow().len(), 4);
    }
}

#[test]
fn refusal_of_the_device_is_reported_with_indices() {
    for why in [BufferCreationError::OutOfMemory, BufferCreationError::BufferTypeNotSupported] {
        let device = Device::refusing(why);
        assert_eq!(DrawCommandsIndicesBuffer::empty(&device, 3).err(), Some(why));
        assert_eq!(DrawCommandsIndicesBuffer::empty_dynamic(&device, 3).err(), Some(why));
        assert_eq!(DrawCommandsIndicesBuffer::empty_persistent(&device, 3).err(), Some(why));
        assert_eq!(DrawCommandsIndicesBuffer::empty_immutable(&device, 3).err(), Some(why));
        assert_eq!(device.asked.borrow().len(), 4);
    }
}

#[test]
fn count_that_no_usize_measures_is_out_of_memory() {
    let device = Device::granting();
    let out_of_memory = Some(BufferCreationError::OutOfMemory);
    let too_many = usize::MAX / 16 + 1;
    assert_eq!(DrawCommandsNoIndicesBuffer::empty(&device, too_many).err(), out_of_memory);
    assert_eq!(DrawCommandsNoIndicesBuffer::empty_dynamic(&device, too_many).err(), out_of_memory);
    assert_eq!(
        DrawCommandsNoIndicesBuffer::empty_persistent(&device, too_many).err(),
        out_of_memory
    );
    assert_eq!(
        DrawCommandsNoIndicesBuffer::empty_immutable(&device, too_many).err(),
        out_of_memory
    );
    let too_many = usize::MAX / 20 + 1;
    assert_eq!(DrawCommandsIndicesBuffer::empty(&device, too_many).err(), out_of_memory);
    assert_eq!(DrawCommandsIndicesBuffer::empty_dynamic(&device, too_many).err(), out_of_memory);
    assert_eq!(DrawCommandsIndicesBuffer::empty_persistent(&device, too_many).err(), out_of_memory);
    assert_eq!(DrawCommandsIndicesBuffer::empty_immutable(&device, usize::MAX).err(), out_of_memory);
    assert!(device.asked.borrow().is_empty());
}

#[test]
fn operations_of_the_view_are_reachable_through_the_buffer() {
    let device = Device::granting();
    let mut buffer = DrawCommandsNoIndicesBuffer::empty_dynamic(&device, 2).unwrap();
    let first = DrawCommandNoIndices { count: 3, instance_count: 1, first_index: 0, base_instance: 0 };
    let second = DrawCommandNoIndices { count: 6, instance_count: 2, first_index: 3, base_instance: 5 };
    buffer.set(0, first);
    assert_eq!(buffer.get(0), first);
    assert!(buffer.get(1).draws_nothing());
    buffer.write(&[second, first]);
    assert_eq!(buffer.read(), vec![second, first]);
    assert_eq!(buffer.as_slice(), &[second, first][..]);
    assert_eq!(buffer.len(), 2);
    assert_eq!(&buffer.to_bytes()[..16], &second.to_bytes()[..]);
    assert_eq!(&buffer.to_bytes()[16..], &first.to_bytes()[..]);

    let mut buffer = DrawCommandsIndicesBuffer::empty_persistent(&device, 2).unwrap();
    let record = DrawCommandIndices {
        count: 100,
        instance_count: 1,
        first_index: 0,
        base_vertex: 4,
        base_instance: 0,
    };
    buffer.set(1, record);
    assert!(buffer.get(0).draws_nothing());
    assert_eq!(buffer.get(1), record);
    assert_eq!(buffer.len(), 2);
    assert_eq!(buffer.get_size(), 40);
    assert_eq!(&buffer.to_bytes()[20..], &record.to_bytes()[..]);
    assert!(buffer.is_persistent());
}

#[test]
fn granted_view_becomes_the_buffer_without_indices() {
    for &count in &[0usize, 3] {
        let mut view: BufferView<DrawCommandNoIndices> =
            BufferView::from_reply(BufferType::DrawIndirectBuffer, count, BufferMode::Dynamic, Ok(()))
                .unwrap();
        let record =
            DrawCommandNoIndices { count: 6, instance_count: 2, first_index: 3, base_instance: 0 };
        if count > 0 {
            view.set(count - 1, record);
        }
        let kept = view.read();
        let buffer = DrawCommandsNoIndicesBuffer::from_view(Ok(view)).unwrap();
        assert_eq!(buffer.len(), count);
        assert_eq!(buffer.read(), kept);
        assert_eq!(buffer.get_mode(), BufferMode::Dynamic);
        assert_eq!(buffer.get_buffer_type(), BufferType::DrawIndirectBuffer);
    }
}

#[test]
fn granted_view_becomes_the_buffer_with_indices() {
    for &count in &[0usize, 1] {
        let mut view: BufferView<DrawCommandIndices> = BufferView::from_reply(
            BufferType::DrawIndirectBuffer,
            count,
            BufferMode::Persistent,
            Ok(()),
        )
        .unwrap();
        let record = DrawCommandIndices {
            count: 100,
            instance_count: 1,
            first_index: 0,
            base_vertex: 0,
            base_instance: 0,
        };
        if count > 0 {
            view.set(0, record);
        }
        let kept = view.read();
        let buffer = DrawCommandsIndicesBuffer::from_view(Ok(view)).unwrap();
        assert_eq!(buffer.len(), count);
        assert_eq!(buffer.read(), kept);
        assert_eq!(buffer.get_mode(), BufferMode::Persistent);
        assert_eq!(buffer.get_buffer_type(), BufferType::DrawIndirectBuffer);
    }
}

#[test]
fn refused_view_gives_the_same_error_and_no_buffer() {
    for why in [BufferCreationError::OutOfMemory, BufferCreationError::BufferTypeNotSupported] {
        assert_eq!(DrawCommandsNoIndicesBuffer::from_view(Err(why)).err(), Some(why));
        assert_eq!(DrawCommandsIndicesBuffer::from_view(Err(why)).err(), Some(why));
    }
}

#[test]
fn buffer_is_built_exactly_when_the_device_grants() {
    for &count in &COUNTS {
        let device = Device::granting();
        assert!(DrawCommandsNoIndicesBuffer::empty(&device, count).is_ok());
        assert!(DrawCommandsNoIndicesBuffer::empty_dynamic(&device, count).is_ok());
        assert!(DrawCommandsNoIndicesBuffer::empty_persistent(&device, count).is_ok());
        assert!(DrawCommandsNoIndicesBuffer::empty_immutable(&device, count).is_ok());
        assert!(DrawCommandsIndicesBuffer::empty(&device, count).is_ok());
        assert!(DrawCommandsIndicesBuffer::empty_dynamic(&device, count).is_ok());
        assert!(DrawCommandsIndicesBuffer::empty_persistent(&device, count).is_ok());
        assert!(DrawCommandsIndicesBuffer::empty_immutable(&device, count).is_ok());
        assert_eq!(device.asked.borrow().len(), 8);
        let device = Device::refusing(BufferCreationError::OutOfMemory);
        assert!(DrawCommandsNoIndicesBuffer::empty(&device, count).is_err());
        assert!(DrawCommandsIndicesBuffer::empty(&device, count).is_err());
        assert_eq!(device.asked.borrow().len(), 2);
    }
}
