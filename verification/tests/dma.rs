use arrow_grid::mmio::dma::DmaControl;

#[test]
fn dma_dma_control_empty() {
    assert_eq!(DmaControl::new().to_u16(), 0);
}

#[test]
fn dma_dma_control_with_transfer_32bit() {
    assert_eq!(DmaControl::new().with_transfer_32bit().to_u16(), 1024);
}

#[test]
fn dma_dma_control_with_enabled() {
    assert_eq!(DmaControl::new().with_enabled().to_u16(), 32768);
}

#[test]
fn dma_dma_control_with_all() {
    assert_eq!(
        DmaControl::new()
            .with_transfer_32bit()
            .with_enabled()
            .to_u16(),
        33792
    );
}
