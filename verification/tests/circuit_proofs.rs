//! End-to-end tests that run the gadgets through the proving framework's
//! mock prover: the library's verified routines fill the regions, and the
//! external verifier checks the decompose gate and the lookup argument.

use halo2_proofs::circuit::{Layouter, SimpleFloorPlanner};
use halo2_proofs::dev::MockProver;
use halo2_proofs::plonk::{self, ConstraintSystem, Error};
use pasta_curves::pallas;

use xor_gadget::backend::{cs_advice_column, cs_enable_equality, Meta, RegionCtx, TableCtx};
use xor_gadget::circuit::{assign_xor_rows, Circuit, Config};
use xor_gadget::error::GadgetError;
use xor_gadget::gadget::decompose::{DecomposeChip, DecomposeConfig, DecomposeInstruction};
use xor_gadget::gadget::xor::{TableChip, TableConfig};
use xor_gadget::word::{AssignedChunk, AssignedWord, Chunk, Word};

fn to_plonk_error(e: GadgetError) -> Error {
    match e {
        GadgetError::Synthesis => Error::Synthesis,
        GadgetError::Backend(b) => b,
    }
}

/// The top-level circuit wired into the proving framework.
#[derive(Clone, Default)]
struct MainCircuit {
    inner: Circuit,
}

impl plonk::Circuit<pallas::Base> for MainCircuit {
    type Config = Config;
    type FloorPlanner = SimpleFloorPlanner;

    fn without_witnesses(&self) -> Self {
        Self::default()
    }

    fn configure(meta: &mut ConstraintSystem<pallas::Base>) -> Self::Config {
        let mut m = Meta { inner: meta };
        Circuit::configure(&mut m)
    }

    fn synthesize(
        &self,
        config: Self::Config,
        mut layouter: impl Layouter<pallas::Base>,
    ) -> Result<(), Error> {
        layouter.assign_table(
            || "xor table",
            |table| {
                let mut t = TableCtx { inner: table };
                TableChip::load(&config.table_config, &mut t).map_err(to_plonk_error)
            },
        )?;
        let table_chip = TableChip::construct(config.table_config);
        let decompose_chip = DecomposeChip::construct(config.decompose_config);

        let x = layouter.assign_region(
            || "witness x",
            |region| {
                let mut r = RegionCtx { inner: region };
                AssignedWord::assign_word(&mut r, config.advice[0], self.inner.x)
                    .map_err(to_plonk_error)
            },
        )?;
        let y = layouter.assign_region(
            || "witness y",
            |region| {
                let mut r = RegionCtx { inner: region };
                AssignedWord::assign_word(&mut r, config.advice[0], self.inner.y)
                    .map_err(to_plonk_error)
            },
        )?;

        let xs = layouter.assign_region(
            || "decompose x",
            |region| {
                let mut r = RegionCtx { inner: region };
                decompose_chip.decompose(&mut r, &x).map_err(to_plonk_error)
            },
        )?;
        let ys = layouter.assign_region(
            || "decompose y",
            |region| {
                let mut r = RegionCtx { inner: region };
                decompose_chip.decompose(&mut r, &y).map_err(to_plonk_error)
            },
        )?;

        layouter.assign_region(
            || "xor rows",
            |region| {
                let mut r = RegionCtx { inner: region };
                assign_xor_rows(&table_chip, &mut r, &xs, &ys).map_err(to_plonk_error)
            },
        )?;
        Ok(())
    }
}

#[test]
fn main_circuit() {
    let circuit = MainCircuit {
        inner: Circuit::new(Some(Word::new(0b10101010)), Some(Word::new(0b01010101))),
    };
    let k = 17;
    let prover = MockProver::run(k, &circuit, vec![]).unwrap();
    assert_eq!(prover.verify(), Ok(()));
}

#[test]
fn unknown_witness_synthesis_error() {
    // A concrete byte is demanded during synthesis while `x` is absent: the
    // pass must abort with a Synthesis error instead of panicking.
    let circuit = MainCircuit { inner: Circuit::new(None, Some(Word::new(5))) };
    let result = MockProver::run(17, &circuit, vec![]);
    assert!(matches!(result, Err(Error::Synthesis)));
}

/// A circuit exercising only the decompose gadget.
#[derive(Debug, Default)]
struct DecomposeCircuit {
    a: Option<Word>,
}

#[derive(Clone)]
struct DecomposeTestConfig {
    decompose_config: DecomposeConfig,
}

impl plonk::Circuit<pallas::Base> for DecomposeCircuit {
    type Config = DecomposeTestConfig;
    type FloorPlanner = SimpleFloorPlanner;

    fn without_witnesses(&self) -> Self {
        Self::default()
    }

    fn configure(meta: &mut ConstraintSystem<pallas::Base>) -> Self::Config {
        let mut m = Meta { inner: meta };
        let a0 = cs_advice_column(&mut m);
        let a1 = cs_advice_column(&mut m);
        let a2 = cs_advice_column(&mut m);
        let decompose_config = DecomposeChip::configure(&mut m, [a0, a1, a2]);
        DecomposeTestConfig { decompose_config }
    }

    fn synthesize(
        &self,
        config: Self::Config,
        mut layouter: impl Layouter<pallas::Base>,
    ) -> Result<(), Error> {
        let column = config.decompose_config.advice[0];
        let a = layouter.assign_region(
            || "witness value",
            |region| {
                let mut r = RegionCtx { inner: region };
                AssignedWord::assign_word(&mut r, column, self.a).map_err(to_plonk_error)
            },
        )?;
        let chip = DecomposeChip::construct(config.decompose_config);
        layouter.assign_region(
            || "decompose",
            |region| {
                let mut r = RegionCtx { inner: region };
                chip.decompose(&mut r, &a).map_err(to_plonk_error)
            },
        )?;
        Ok(())
    }
}

#[test]
fn decompose_test() {
    let k = 4;
    let circuit = DecomposeCircuit { a: Some(Word::new(5)) };
    let prover = MockProver::run(k, &circuit, vec![]).unwrap();
    assert_eq!(prover.verify(), Ok(()));
}

/// A circuit exercising only the XOR table gadget, with hand-picked rows.
#[derive(Copy, Clone)]
struct LookupCircuit {
    rows: [(u8, u8, u8); 3],
}

impl plonk::Circuit<pallas::Base> for LookupCircuit {
    type Config = TableConfig;
    type FloorPlanner = SimpleFloorPlanner;

    fn without_witnesses(&self) -> Self {
        *self
    }

    fn configure(meta: &mut ConstraintSystem<pallas::Base>) -> Self::Config {
        let mut m = Meta { inner: meta };
        let input_x = cs_advice_column(&mut m);
        let input_y = cs_advice_column(&mut m);
        let input_z = cs_advice_column(&mut m);
        TableChip::configure(&mut m, input_x, input_y, input_z)
    }

    fn synthesize(
        &self,
        config: Self::Config,
        mut layouter: impl Layouter<pallas::Base>,
    ) -> Result<(), Error> {
        layouter.assign_table(
            || "xor table",
            |table| {
                let mut t = TableCtx { inner: table };
                TableChip::load(&config, &mut t).map_err(to_plonk_error)
            },
        )?;
        let table_chip = TableChip::construct(config);
        layouter.assign_region(
            || "compress",
            |region| {
                let mut r = RegionCtx { inner: region };
                for (i, row) in self.rows.iter().enumerate() {
                    let (x, y, z) = *row;
                    table_chip
                        .add_row(&mut r, i, Some(Chunk::new(x)), Some(Chunk::new(y)), Some(Chunk::new(z)))
                        .map_err(to_plonk_error)?;
                }
                Ok(())
            },
        )?;
        Ok(())
    }
}

#[test]
fn lookup_table() {
    let circuit = LookupCircuit {
        rows: [
            (0, 1, 1),
            (0b00110011, 0b00110011, 0b00000000),
            (0b01010101, 0b10101010, 0b11111111),
        ],
    };
    let prover = match MockProver::<pallas::Base>::run(17, &circuit, vec![]) {
        Ok(prover) => prover,
        Err(e) => panic!("{:?}", e),
    };
    assert_eq!(prover.verify(), Ok(()));
}

#[test]
fn off_by_one_row_rejected() {
    // The same inputs as the passing scenario, but the asserted XOR result
    // is off by one: assignment accepts it, verification must reject it.
    let circuit = LookupCircuit { rows: [(170, 85, 254), (0, 0, 0), (1, 1, 0)] };
    let prover = MockProver::<pallas::Base>::run(17, &circuit, vec![]).unwrap();
    assert!(prover.verify().is_err());
}

#[test]
fn table_needs_enough_rows() {
    // With k = 4 the matrix has far fewer than 65536 rows, so materialising
    // the table fails with the backend's own error, not a Synthesis error.
    let circuit = LookupCircuit { rows: [(0, 0, 0), (0, 0, 0), (0, 0, 0)] };
    let result = MockProver::<pallas::Base>::run(4, &circuit, vec![]);
    assert!(result.is_err());
    assert!(!matches!(result, Err(Error::Synthesis)));
}

/// A circuit that only witnesses a single word cell.
#[derive(Clone, Debug, Default)]
struct WitnessWordCircuit {
    value: Option<Word>,
}

#[derive(Clone)]
struct WitnessWordConfig {
    advice: [xor_gadget::backend::AdviceColumn; 4],
}

impl plonk::Circuit<pallas::Base> for WitnessWordCircuit {
    type Config = WitnessWordConfig;
    type FloorPlanner = SimpleFloorPlanner;

    fn without_witnesses(&self) -> Self {
        Self::default()
    }

    fn configure(meta: &mut ConstraintSystem<pallas::Base>) -> Self::Config {
        let mut m = Meta { inner: meta };
        let advice = [
            cs_advice_column(&mut m),
            cs_advice_column(&mut m),
            cs_advice_column(&mut m),
            cs_advice_column(&mut m),
        ];
        for column in advice.iter() {
            cs_enable_equality(&mut m, *column);
        }
        WitnessWordConfig { advice }
    }

    fn synthesize(
        &self,
        config: Self::Config,
        mut layouter: impl Layouter<pallas::Base>,
    ) -> Result<(), Error> {
        let assigned = layouter.assign_region(
            || "witness value",
            |region| {
                let mut r = RegionCtx { inner: region };
                AssignedWord::assign_word(&mut r, config.advice[0], self.value)
                    .map_err(to_plonk_error)
            },
        )?;
        assert_eq!(assigned.value_word(), Some(5));
        let chunk = layouter.assign_region(
            || "witness chunk",
            |region| {
                let mut r = RegionCtx { inner: region };
                AssignedChunk::assign_chunk(&mut r, config.advice[1], Some(Chunk::new(7)))
                    .map_err(to_plonk_error)
            },
        )?;
        assert_eq!(chunk.value_word(), Some(7));
        Ok(())
    }
}

#[test]
fn assign_word() {
    let value = Word::new(5);
    let circuit = WitnessWordCircuit { value: Some(value) };
    let k = 4;
    let prover = MockProver::run(k, &circuit, vec![]).unwrap();
    assert_eq!(prover.verify(), Ok(()));
}
