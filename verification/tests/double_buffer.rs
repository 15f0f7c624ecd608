use rpg_core::dbl_buffer::DoubleBuffer;

#[test]
fn test_double_buffer() {
    let mut double_buffer = DoubleBuffer::new(1024);

    // Simulate writing to the inactive buffer
    double_buffer.write_to_inactive_buffer(vec![1, 2, 3, 4]);

    // Swap the buffers
    double_buffer.swap_buffers();

    // Now the previously inactive buffer is active
    let buffer_content = double_buffer.get_active_buffer();
    assert_eq!(*buffer_content, vec![1, 2, 3, 4]);
}

#[test]
fn test_double_buffer_swap() {
    let mut double_buffer = DoubleBuffer::new(1024);

    // Simulate writing to the inactive buffer
    double_buffer.write_to_inactive_buffer(vec![1, 2, 3, 4]);

    // Swap the buffers
    double_buffer.swap_buffers();

    // Now the previously inactive buffer is active
    let buffer_content = double_buffer.get_active_buffer();
    assert_eq!(*buffer_content, vec![1, 2, 3, 4]);

    // Simulate writing to the inactive buffer
    double_buffer.write_to_inactive_buffer(vec![5, 6, 7, 8]);

    // Swap the buffers
    double_buffer.swap_buffers();

    // Now the previously inactive buffer is active
    let buffer_content = double_buffer.get_active_buffer();
    assert_eq!(*buffer_content, vec![5, 6, 7, 8]);
}

#[test]
fn test_double_buffer_inactive_side() {
    let mut double_buffer: DoubleBuffer<u8> = DoubleBuffer::new(4);
    assert!(double_buffer.get_active_buffer().is_empty());
    assert!(double_buffer.get_inactive_buffer().is_empty());

    double_buffer.write_to_inactive_buffer(vec![9]);
    assert!(double_buffer.get_active_buffer().is_empty());
    assert_eq!(*double_buffer.get_inactive_buffer(), vec![9]);

    double_buffer.swap_buffers();
    assert_eq!(*double_buffer.get_active_buffer(), vec![9]);
    assert!(double_buffer.get_inactive_buffer().is_empty());
}
